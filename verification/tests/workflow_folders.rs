use comfyui_openai_api::codec::parse_text;
use comfyui_openai_api::json::Json;
use comfyui_openai_api::workflows::{Folder, FolderEntry, FolderFile, Workflows, WorkflowsLoader};

fn file(stem: &str, extension: &str, content: &str) -> FolderEntry {
    FolderEntry::File(FolderFile {
        extension: Some(extension.to_string()),
        stem: Some(stem.to_string()),
        shown_path: format!("./workflows/{}.{}", stem, extension),
        quoted_path: format!("\"./workflows/{}.{}\"", stem, extension),
        content: Ok(content.to_string()),
    })
}

fn load(folder: Folder) -> Result<Workflows, String> {
    WorkflowsLoader::load_from_folder("./workflows", folder)
}

#[test]
fn each_json_file_is_a_workflow_under_its_name() {
    let workflows = load(Folder::Listing(vec![
        file("flux-dev", "json", r#"{"1":{}}"#),
        file("readme", "txt", "no json"),
        file("animagine-xl-4", "JSON", "[]"),
    ]))
    .unwrap();
    assert_eq!(workflows.get("flux-dev"), Some(&parse_text(r#"{"1":{}}"#).unwrap()));
    assert_eq!(workflows.get("animagine-xl-4"), Some(&Json::Array(Vec::new())));
    assert_eq!(workflows.get("readme"), None);
    assert_eq!(workflows.get("flux-dev.json"), None);
}

#[test]
fn a_folder_without_files_has_no_workflows() {
    assert_eq!(load(Folder::Listing(Vec::new())).unwrap(), Workflows::new());
}

#[test]
fn the_last_file_of_a_name_counts() {
    let workflows = load(Folder::Listing(vec![
        file("a", "json", "1"),
        file("b", "json", "2"),
        file("a", "Json", "3"),
    ]))
    .unwrap();
    assert_eq!(workflows.get("a"), Some(&Json::Integer(3)));
    assert_eq!(workflows.get("b"), Some(&Json::Integer(2)));
}

#[test]
fn a_folder_must_be_there() {
    assert_eq!(
        load(Folder::Missing).unwrap_err(),
        "Workflows folder does not exist: ./workflows"
    );
    assert_eq!(
        load(Folder::NotADirectory).unwrap_err(),
        "Workflows path is not a directory: ./workflows"
    );
    assert_eq!(
        load(Folder::Unreadable("denied".to_string())).unwrap_err(),
        "Failed to read workflows directory: denied"
    );
}

#[test]
fn the_first_entry_that_fails_decides() {
    assert_eq!(
        load(Folder::Listing(vec![
            file("a", "json", "1"),
            FolderEntry::Unreadable("gone".to_string()),
            file("b", "json", "{"),
        ]))
        .unwrap_err(),
        "Failed to read directory entry: gone"
    );
    assert_eq!(
        load(Folder::Listing(vec![file("b", "json", "{")])).unwrap_err(),
        "Failed to parse JSON from ./workflows/b.json: EOF while parsing an object at line 1 column 1"
    );
}

#[test]
fn a_workflow_file_must_have_a_name_and_be_readable() {
    assert_eq!(
        load(Folder::Listing(vec![FolderEntry::File(FolderFile {
            extension: Some("json".to_string()),
            stem: None,
            shown_path: "shown".to_string(),
            quoted_path: "quoted".to_string(),
            content: Ok("1".to_string()),
        })]))
        .unwrap_err(),
        "Failed to get filename for: quoted"
    );
    assert_eq!(
        load(Folder::Listing(vec![FolderEntry::File(FolderFile {
            extension: Some("json".to_string()),
            stem: Some("a".to_string()),
            shown_path: "shown".to_string(),
            quoted_path: "quoted".to_string(),
            content: Err("denied".to_string()),
        })]))
        .unwrap_err(),
        "Failed to read JSON file shown: denied"
    );
}

#[test]
fn other_files_are_not_looked_at() {
    let workflows = load(Folder::Listing(vec![
        FolderEntry::File(FolderFile {
            extension: None,
            stem: None,
            shown_path: "shown".to_string(),
            quoted_path: "quoted".to_string(),
            content: Err("denied".to_string()),
        }),
        FolderEntry::File(FolderFile {
            extension: Some("jsonl".to_string()),
            stem: Some("a".to_string()),
            shown_path: "shown".to_string(),
            quoted_path: "quoted".to_string(),
            content: Ok("{".to_string()),
        }),
    ]));
    assert_eq!(workflows.unwrap(), Workflows::new());
}

#[test]
fn endings_are_compared_without_case() {
    for ending in ["json", "JSON", "Json", "jSoN"] {
        assert!(WorkflowsLoader::is_workflow(&Some(ending.to_string())));
    }
    for ending in ["", "jso", "jsons", "j\u{17f}on", "yaml"] {
        assert!(!WorkflowsLoader::is_workflow(&Some(ending.to_string())));
    }
    assert!(!WorkflowsLoader::is_workflow(&None));
}

#[test]
fn a_parsed_workflow_is_added() {
    let workflows = WorkflowsLoader::add_parsed(Workflows::new(), "a", "a.json", Ok(Json::Null));
    assert_eq!(workflows.unwrap().get("a"), Some(&Json::Null));
    let refused = WorkflowsLoader::add_parsed(Workflows::new(), "a", "a.json", Err("bad".to_string()));
    assert_eq!(refused.unwrap_err(), "Failed to parse JSON from a.json: bad");
}
