use ytdl_watch::paths::{
    diagnostics_path_of, failed_path_of, file_name_of, is_trigger_name, parent_of,
    running_path_of,
};

fn bv(s: &str) -> Vec<u8> {
    s.as_bytes().to_vec()
}

#[test]
fn trigger_names_match_only_the_ytdl_suffix() {
    assert!(is_trigger_name(&bv("movie.ytdl")));
    assert!(is_trigger_name(&bv(".ytdl")));
    assert!(is_trigger_name(&bv("a.b.ytdl")));
    assert!(!is_trigger_name(&bv("movie.mp4")));
    assert!(!is_trigger_name(&bv("movie.ytdlx")));
    assert!(!is_trigger_name(&bv("movie.ytd")));
    assert!(!is_trigger_name(&bv("ytdl")));
    assert!(!is_trigger_name(&bv("movie.YTDL")));
    assert!(!is_trigger_name(&bv("")));
}

#[test]
fn file_name_is_the_final_segment() {
    assert_eq!(file_name_of(&bv("/watch/dir/movie.ytdl")), bv("movie.ytdl"));
    assert_eq!(file_name_of(&bv("movie.ytdl")), bv("movie.ytdl"));
    assert_eq!(file_name_of(&bv("/watch/dir/")), bv(""));
    assert_eq!(file_name_of(&bv("")), bv(""));
}

#[test]
fn parent_is_everything_before_the_final_segment() {
    assert_eq!(parent_of(&bv("/watch/dir/movie.ytdl")), bv("/watch/dir"));
    assert_eq!(parent_of(&bv("movie.ytdl")), bv(""));
    assert_eq!(parent_of(&bv("/movie.ytdl")), bv(""));
}

#[test]
fn lifecycle_paths_append_their_suffixes() {
    let p = bv("/w/movie.ytdl");
    assert_eq!(running_path_of(&p), bv("/w/movie.ytdl.running"));
    assert_eq!(failed_path_of(&p), bv("/w/movie.ytdl.failed"));
    assert_eq!(diagnostics_path_of(&p), bv("/w/movie.ytdl.diagnostics"));
}
