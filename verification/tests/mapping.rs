use rasm::units::{map_paths, unit_from, BuildUnit};

fn unit(source: &str, relative: &str, object: &str, binary: &str) -> BuildUnit {
    BuildUnit {
        source: source.to_string(),
        relative: relative.to_string(),
        object: object.to_string(),
        binary: binary.to_string(),
    }
}

#[test]
fn map_paths_mirrors_the_source_tree() {
    let files = vec!["src/a.asm".to_string(), "src/sub/c.s".to_string()];
    let units = map_paths(&files, "src", "build/obj", "build/bin");
    assert_eq!(
        units,
        vec![
            unit("src/a.asm", "a.asm", "build/obj/a.o", "build/bin/a"),
            unit("src/sub/c.s", "sub/c.s", "build/obj/sub/c.o", "build/bin/sub/c"),
        ]
    );
}

#[test]
fn map_paths_drops_a_file_outside_the_base() {
    let files = vec![
        "/tmp/x.asm".to_string(),
        "src/a.asm".to_string(),
        "other/b.asm".to_string(),
        "src/c.s".to_string(),
    ];
    let units = map_paths(&files, "src", "build/obj", "build/bin");
    assert_eq!(
        units,
        vec![
            unit("src/a.asm", "a.asm", "build/obj/a.o", "build/bin/a"),
            unit("src/c.s", "c.s", "build/obj/c.o", "build/bin/c"),
        ]
    );
}

#[test]
fn map_paths_keeps_the_order_of_the_files() {
    let files = vec!["src/z.s".to_string(), "src/a.s".to_string(), "src/m.s".to_string()];
    let units = map_paths(&files, "src", "build/obj", "build/bin");
    let sources: Vec<String> = units.into_iter().map(|u| u.source).collect();
    assert_eq!(sources, files);
}

#[test]
fn map_paths_of_nothing_is_nothing() {
    assert_eq!(map_paths(&Vec::new(), "src", "build/obj", "build/bin"), Vec::<BuildUnit>::new());
}

#[test]
fn map_paths_replaces_only_the_last_extension() {
    let files = vec!["src/lib.v2.asm".to_string()];
    let units = map_paths(&files, "src", "o", "b");
    assert_eq!(units, vec![unit("src/lib.v2.asm", "lib.v2.asm", "o/lib.v2.o", "b/lib.v2")]);
}

#[test]
fn unit_from_needs_a_relative_path() {
    assert_eq!(unit_from("/tmp/x.asm", None, "build/obj", "build/bin"), None);
    assert_eq!(
        unit_from("src/a.asm", Some("a.asm".to_string()), "build/obj", "build/bin"),
        Some(unit("src/a.asm", "a.asm", "build/obj/a.o", "build/bin/a"))
    );
}
