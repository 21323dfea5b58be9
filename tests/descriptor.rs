use lingo::descriptor::{file_stem, join_path, App};

fn app(name: &str, main: &str) -> App {
    App::new(
        name.to_string(),
        "/proj".to_string(),
        "/proj/out".to_string(),
        main.to_string(),
    )
}

#[test]
fn derived_paths() {
    let a = app("foo", "src/Main.lf");
    assert_eq!(a.src_gen_dir(), "/proj/src-gen");
    assert_eq!(a.build_dir(), "/proj/out/build");
    assert_eq!(a.bin_dir(), "/proj/out/bin");
    assert_eq!(a.executable_path(), "/proj/out/bin/foo");
    assert_eq!(a.target_name(), "Main");
}

#[test]
fn join_keeps_single_separator() {
    assert_eq!(join_path("/a/", "b"), "/a/b");
    assert_eq!(join_path("/a", "b"), "/a/b");
    assert_eq!(join_path("", "b"), "b");
}

#[test]
fn stems() {
    assert_eq!(file_stem("src/Main.lf"), "Main");
    assert_eq!(file_stem("Main.lf"), "Main");
    assert_eq!(file_stem("a/b.c.lf"), "b.c");
    assert_eq!(file_stem("dir/.hidden"), ".hidden");
    assert_eq!(file_stem("dir/noext"), "noext");
}
