//! Which workflows a folder holds.
use crate::codec::parsed_text;
use crate::json::JsonTree;
use crate::text::{equal_but_for_case, text_view};
use crate::workflows::{
    every_workflow_has_a_file, loaded_view, workflow_is_named_after_its_file, workflows_in,
    workflows_of, Folder, FolderEntry, Workflows,
};
use vstd::prelude::*;

verus! {

/// The entry is a file with the ending `json`, in whatever case that is written.
pub open spec fn is_json_file(entry: FolderEntry) -> bool {
    entry matches FolderEntry::File(file) && (file.extension matches Some(extension)
        && equal_but_for_case(extension@, "json"@))
}

/// The entry is a JSON file of that name.
pub open spec fn is_json_file_named(entry: FolderEntry, name: Seq<char>) -> bool {
    is_json_file(entry) && (entry matches FolderEntry::File(file) && (
    file.stem matches Some(stem) && stem@ == name))
}

/// The entry does not stop the folder from being loaded: it could be read, and if it is a JSON
/// file it has a name, could be read, and holds JSON.
pub open spec fn can_be_loaded(entry: FolderEntry) -> bool {
    entry matches FolderEntry::File(file) && (is_json_file(entry) ==> file.stem is Some && (
    file.content matches Ok(text) && parsed_text(text@) is Ok))
}

/// Why an entry stops the folder from being loaded.
pub open spec fn reason_of(entry: FolderEntry) -> Seq<char> {
    match entry {
        FolderEntry::Unreadable(reason) => "Failed to read directory entry: "@ + reason@,
        FolderEntry::File(file) => if file.stem is None {
            "Failed to get filename for: "@ + file.quoted_path@
        } else {
            match file.content {
                Err(reason) => "Failed to read JSON file "@ + file.shown_path@ + ": "@ + reason@,
                Ok(text) => "Failed to parse JSON from "@ + file.shown_path@ + ": "@
                    + parsed_text(text@)->Err_0,
            }
        },
    }
}

/// A folder is loaded exactly where none of its entries stops that.
pub proof fn a_folder_loads_where_every_entry_does(entries: Seq<FolderEntry>)
    ensures
        workflows_of(entries) is Ok <==> forall|i: int|
            0 <= i < entries.len() ==> can_be_loaded(#[trigger] entries[i]),
    decreases entries.len(),
{
    if entries.len() > 0 {
        let front = entries.drop_last();
        a_folder_loads_where_every_entry_does(front);
        assert(entries.last() == entries[entries.len() - 1]);
        if forall|i: int| 0 <= i < entries.len() ==> can_be_loaded(#[trigger] entries[i]) {
            assert forall|i: int| 0 <= i < front.len() implies can_be_loaded(
                #[trigger] front[i],
            ) by {
                assert(front[i] == entries[i]);
            }
            assert(can_be_loaded(entries[entries.len() - 1]));
        }
        if workflows_of(entries) is Ok {
            assert forall|i: int| 0 <= i < entries.len() implies can_be_loaded(
                #[trigger] entries[i],
            ) by {
                if i < front.len() {
                    assert(front[i] == entries[i]);
                    assert(can_be_loaded(front[i]));
                }
            }
        }
    }
}

/// The first entry that stops a folder from being loaded is the reason that is given.
pub proof fn the_first_entry_that_fails_is_the_reason(entries: Seq<FolderEntry>, at: int)
    requires
        0 <= at < entries.len(),
        !can_be_loaded(entries[at]),
        forall|i: int| 0 <= i < at ==> can_be_loaded(#[trigger] entries[i]),
    ensures
        workflows_of(entries) == Err::<Map<Seq<char>, JsonTree>, Seq<char>>(
            reason_of(entries[at]),
        ),
    decreases entries.len(),
{
    let front = entries.drop_last();
    if at < front.len() {
        assert(front[at] == entries[at]);
        assert forall|i: int| 0 <= i < at implies can_be_loaded(#[trigger] front[i]) by {
            assert(front[i] == entries[i]);
        }
        the_first_entry_that_fails_is_the_reason(front, at);
    } else {
        assert forall|i: int| 0 <= i < front.len() implies can_be_loaded(#[trigger] front[i]) by {
            assert(front[i] == entries[i]);
        }
        a_folder_loads_where_every_entry_does(front);
        assert(entries.last() == entries[at]);
    }
}

/// Of a folder that is loaded, the workflow of a name is what the last JSON file of that name
/// holds.
pub proof fn the_last_file_of_a_name_is_its_workflow(
    entries: Seq<FolderEntry>,
    at: int,
    name: Seq<char>,
)
    requires
        workflows_of(entries) is Ok,
        0 <= at < entries.len(),
        is_json_file_named(entries[at], name),
        forall|k: int| at < k < entries.len() ==> !is_json_file_named(#[trigger] entries[k], name),
    ensures
        workflows_of(entries)->Ok_0.contains_key(name),
        entries[at] matches FolderEntry::File(file) && (file.content matches Ok(text)
            && parsed_text(text@) == Ok::<JsonTree, Seq<char>>(
            workflows_of(entries)->Ok_0[name],
        )),
{
    workflow_is_named_after_its_file(entries, at, name);
}

/// Of a folder that is loaded, a name that no JSON file has is no workflow.
pub proof fn a_name_without_a_file_is_no_workflow(entries: Seq<FolderEntry>, name: Seq<char>)
    requires
        workflows_of(entries) is Ok,
        forall|k: int| 0 <= k < entries.len() ==> !is_json_file_named(#[trigger] entries[k], name),
    ensures
        !workflows_of(entries)->Ok_0.contains_key(name),
{
    if workflows_of(entries)->Ok_0.contains_key(name) {
        every_workflow_has_a_file(entries, name);
    }
}

/// What is no folder to be read is refused with its path or the reason.
pub proof fn what_is_no_folder_is_refused(path: Seq<char>, reason: String)
    ensures
        workflows_in(path, Folder::Missing) == Err::<Map<Seq<char>, JsonTree>, Seq<char>>(
            "Workflows folder does not exist: "@ + path,
        ),
        workflows_in(path, Folder::NotADirectory) == Err::<Map<Seq<char>, JsonTree>, Seq<char>>(
            "Workflows path is not a directory: "@ + path,
        ),
        workflows_in(path, Folder::Unreadable(reason)) == Err::<
            Map<Seq<char>, JsonTree>,
            Seq<char>,
        >("Failed to read workflows directory: "@ + reason@),
{
}

/// A folder that was listed holds the workflows of its entries, whatever its path.
pub proof fn a_folder_holds_the_workflows_of_its_entries(
    path: Seq<char>,
    entries: Vec<FolderEntry>,
)
    ensures
        workflows_in(path, Folder::Listing(entries)) == workflows_of(entries@),
{
}

/// Loaded workflows and texts that may be missing are seen as what they hold.
pub proof fn loaded_workflows_are_seen_as_they_are(workflows: Workflows, text: String)
    ensures
        loaded_view(Ok(workflows)) == Ok::<Map<Seq<char>, JsonTree>, Seq<char>>(workflows@),
        loaded_view(Err(text)) == Err::<Map<Seq<char>, JsonTree>, Seq<char>>(text@),
        text_view(Some(text)) == Some(text@),
        text_view(None) is None,
{
}

} // verus!
