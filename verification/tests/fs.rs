use ivygate::fs::{kind_of, Entry, File, Folder, Kind, ReadError};

fn file(text: &str) -> Entry {
    Entry::File(File::new(text.to_string()))
}

fn text_of(entry: &Entry) -> &str {
    match entry {
        Entry::File(file) => file.contents(),
        Entry::Folder(_) => panic!("expected a file"),
    }
}

#[test]
fn a_file_keeps_its_contents() {
    assert_eq!(File::new("int x;".to_string()).contents(), "int x;");
    assert_eq!(File::new(String::new()).contents(), "");
}

#[test]
fn directories_are_folders_files_are_files_and_the_rest_is_unsupported() {
    assert_eq!(kind_of(true, false), Ok(Kind::Folder));
    assert_eq!(kind_of(false, true), Ok(Kind::File));
    assert_eq!(kind_of(true, true), Ok(Kind::Folder));
    assert_eq!(kind_of(false, false), Err(ReadError::UnsupportedEntry));
    assert_eq!(ReadError::UnsupportedEntry.message(), "UnsupportedEntry");
}

#[test]
fn a_new_folder_is_empty() {
    let folder = Folder::new();
    assert_eq!(folder.len(), 0);
    assert!(folder.get("a.c").is_none());
}

#[test]
fn a_folder_finds_its_entries_by_name() {
    let mut folder = Folder::new();
    assert!(folder.insert("a.c".to_string(), file("a")).is_none());
    assert!(folder.insert("b.c".to_string(), file("b")).is_none());
    assert_eq!(folder.len(), 2);
    assert_eq!(text_of(folder.get("a.c").unwrap()), "a");
    assert_eq!(text_of(folder.get("b.c").unwrap()), "b");
    assert!(folder.get("c.c").is_none());
    assert!(folder.get("A.c").is_none());
}

#[test]
fn an_entry_gives_way_to_a_new_one_of_its_name() {
    let mut folder = Folder::new();
    folder.insert("a.c".to_string(), file("old"));
    folder.insert("b.c".to_string(), file("b"));
    let previous = folder.insert("a.c".to_string(), file("new")).unwrap();
    assert_eq!(text_of(&previous), "old");
    assert_eq!(folder.len(), 2);
    assert_eq!(text_of(folder.get("a.c").unwrap()), "new");
    assert_eq!(text_of(folder.get("b.c").unwrap()), "b");
}

#[test]
fn folders_nest() {
    let mut inner = Folder::new();
    inner.insert("x.h".to_string(), file("x"));
    let mut outer = Folder::new();
    outer.insert("include".to_string(), Entry::from(inner));
    outer.insert("main.c".to_string(), Entry::from(File::new("m".to_string())));
    match outer.get("include").unwrap() {
        Entry::Folder(folder) => assert_eq!(text_of(folder.get("x.h").unwrap()), "x"),
        Entry::File(_) => panic!("expected a folder"),
    }
    let mut names: Vec<&str> = (0..outer.len()).map(|i| outer.entry_at(i).0).collect();
    names.sort();
    assert_eq!(names, vec!["include", "main.c"]);
}
