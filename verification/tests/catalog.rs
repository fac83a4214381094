use localtoolbox::catalog::{get_available_tools, tools_in, Catalog, CatalogProgress};
use localtoolbox::host::{Listed, Reply, Step};

fn dir(name: &str) -> Listed {
    Listed::Entry { name: Some(name.to_string()), is_dir: true }
}

fn file(name: &str) -> Listed {
    Listed::Entry { name: Some(name.to_string()), is_dir: false }
}

fn reading() -> Catalog {
    match get_available_tools().step(Reply::Exists(true)) {
        CatalogProgress::Continue(catalog) => catalog,
        CatalogProgress::Finished(_) => panic!("the directory is there"),
    }
}

fn ended(progress: CatalogProgress) -> Result<Vec<String>, String> {
    match progress {
        CatalogProgress::Finished(tools) => tools,
        CatalogProgress::Continue(_) => panic!("the look should have ended"),
    }
}

#[test]
fn a_missing_tools_root_means_no_tools() {
    let catalog = get_available_tools();
    match catalog.pending() {
        Step::Probe(path) => assert_eq!(path, "tools"),
        _ => panic!("the look begins with a probe"),
    }
    assert_eq!(ended(catalog.step(Reply::Exists(false))), Ok(Vec::new()));
}

#[test]
fn every_directory_is_a_tool() {
    let catalog = reading();
    match catalog.pending() {
        Step::List(path) => assert_eq!(path, "tools"),
        _ => panic!("the directory should be listed"),
    }
    let entries = vec![
        dir("video_add_audio"),
        file("README.md"),
        dir("image_compressor"),
        Listed::Entry { name: None, is_dir: true },
        Listed::Entry { name: None, is_dir: false },
        dir(""),
    ];
    assert_eq!(
        ended(catalog.step(Reply::Listing(entries))),
        Ok(vec!["video_add_audio".to_string(), "image_compressor".to_string(), String::new()])
    );
}

#[test]
fn an_empty_directory_holds_no_tools() {
    assert_eq!(ended(reading().step(Reply::Listing(Vec::new()))), Ok(Vec::new()));
}

#[test]
fn a_directory_that_cannot_be_listed_is_an_error() {
    assert_eq!(
        ended(reading().step(Reply::Failed("Permission denied (os error 13)".to_string()))),
        Err("Failed to read tools directory: Permission denied (os error 13)".to_string())
    );
}

#[test]
fn the_first_unreadable_entry_is_the_error() {
    let entries = vec![
        dir("a"),
        Listed::Unreadable("first".to_string()),
        dir("b"),
        Listed::Unreadable("second".to_string()),
    ];
    assert_eq!(tools_in(&entries), Err("Failed to read directory entry: first".to_string()));
    assert_eq!(tools_in(&vec![dir("a"), dir("b")]), Ok(vec!["a".to_string(), "b".to_string()]));
}

#[test]
fn a_look_waits_for_its_answer() {
    let waiting = match get_available_tools().step(Reply::Listing(vec![dir("a")])) {
        CatalogProgress::Continue(catalog) => catalog,
        CatalogProgress::Finished(_) => panic!("the look ended on a stray reply"),
    };
    assert!(matches!(waiting, Catalog::Looking));
    let waiting = match reading().step(Reply::Exists(false)) {
        CatalogProgress::Continue(catalog) => catalog,
        CatalogProgress::Finished(_) => panic!("the look ended on a stray reply"),
    };
    assert!(matches!(waiting, Catalog::Reading));
}
