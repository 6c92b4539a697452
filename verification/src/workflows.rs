//! The workflows that requests name as their models.
use crate::codec::{parse_text, parse_view, parsed_text};
use crate::json::{
    lookup, lookup_gives_what_was_set, setting_leaves_other_keys, Json, JsonObject, JsonTree,
};
use crate::text::{equal_but_for_case, same_but_for_case, text_view};
use vstd::prelude::*;

verus! {

/// Workflows by name.
#[derive(Debug, PartialEq)]
pub struct Workflows {
    by_name: JsonObject,
}

impl View for Workflows {
    type V = Map<Seq<char>, JsonTree>;

    closed spec fn view(&self) -> Map<Seq<char>, JsonTree> {
        Map::new(
            |name: Seq<char>| lookup(self.by_name.entries(), name) is Some,
            |name: Seq<char>| lookup(self.by_name.entries(), name)->0,
        )
    }
}

impl Workflows {
    /// No workflows.
    pub fn new() -> (workflows: Workflows)
        ensures
            workflows@ == Map::<Seq<char>, JsonTree>::empty(),
    {
        let workflows = Workflows { by_name: JsonObject::new() };
        assert(workflows@ =~= Map::<Seq<char>, JsonTree>::empty());
        workflows
    }

    /// The workflows with `workflow` under `name`, in place of the one that had the name.
    pub fn with(self, name: &str, workflow: Json) -> (workflows: Workflows)
        ensures
            workflows@ == self@.insert(name@, workflow.tree()),
    {
        let ghost old_entries = self.by_name.entries();
        let ghost tree = workflow.tree();
        let workflows = Workflows { by_name: self.by_name.with(name, workflow) };
        proof {
            lookup_gives_what_was_set(old_entries, name@, tree);
            assert forall|other: Seq<char>| other != name@ implies lookup(
                workflows.by_name.entries(),
                other,
            ) == lookup(old_entries, other) by {
                setting_leaves_other_keys(old_entries, name@, tree, other);
            }
            assert(workflows@ =~= self@.insert(name@, tree));
        }
        workflows
    }

    /// The workflow of that name.
    pub fn get(&self, name: &str) -> (workflow: Option<&Json>)
        ensures
            match workflow {
                Some(workflow) => self@.contains_key(name@) && self@[name@] == workflow.tree(),
                None => !self@.contains_key(name@),
            },
    {
        self.by_name.get(name)
    }
}

/// Loads the workflows of a folder, each under the name of its file.
pub struct WorkflowsLoader;

/// A file of a folder.
#[derive(Debug)]
pub struct FolderFile {
    /// The ending of its name, where it is text.
    pub extension: Option<String>,
    /// Its name without the ending, where it is text.
    pub stem: Option<String>,
    /// Its path as it is shown.
    pub shown_path: String,
    /// Its path as it is quoted.
    pub quoted_path: String,
    /// What it holds, or why it could not be read. Of a file that is no workflow, this is not
    /// looked at.
    pub content: Result<String, String>,
}

/// One entry of a folder's listing.
#[derive(Debug)]
pub enum FolderEntry {
    File(FolderFile),
    /// The entry could not be read, with the reason.
    Unreadable(String),
}

/// What was found at a folder's path.
#[derive(Debug)]
pub enum Folder {
    Missing,
    NotADirectory,
    /// The listing could not be read, with the reason.
    Unreadable(String),
    Listing(Vec<FolderEntry>),
}

/// A file with that ending holds a workflow.
pub open spec fn is_workflow_ending(extension: Option<Seq<char>>) -> bool {
    extension matches Some(extension) && equal_but_for_case(extension, "json"@)
}

/// The workflows with that one, where its file was parsed, or why there are none.
pub open spec fn with_parsed(
    workflows: Map<Seq<char>, JsonTree>,
    name: Seq<char>,
    shown_path: Seq<char>,
    parsed: Result<JsonTree, Seq<char>>,
) -> Result<Map<Seq<char>, JsonTree>, Seq<char>> {
    match parsed {
        Ok(workflow) => Ok(workflows.insert(name, workflow)),
        Err(message) => Err("Failed to parse JSON from "@ + shown_path + ": "@ + message),
    }
}

/// The workflows with that of the entry, if it is one, or why there are none.
pub open spec fn with_entry(
    workflows: Map<Seq<char>, JsonTree>,
    entry: FolderEntry,
) -> Result<Map<Seq<char>, JsonTree>, Seq<char>> {
    match entry {
        FolderEntry::Unreadable(reason) => Err("Failed to read directory entry: "@ + reason@),
        FolderEntry::File(file) => if !is_workflow_ending(text_view(file.extension)) {
            Ok(workflows)
        } else {
            match (file.stem, file.content) {
                (None, _) => Err("Failed to get filename for: "@ + file.quoted_path@),
                (Some(_), Err(reason)) => Err(
                    "Failed to read JSON file "@ + file.shown_path@ + ": "@ + reason@,
                ),
                (Some(name), Ok(text)) => with_parsed(
                    workflows,
                    name@,
                    file.shown_path@,
                    parsed_text(text@),
                ),
            }
        },
    }
}

/// The workflows of the entries. The first entry that fails decides.
pub open spec fn workflows_of(entries: Seq<FolderEntry>) -> Result<
    Map<Seq<char>, JsonTree>,
    Seq<char>,
>
    decreases entries.len(),
{
    if entries.len() == 0 {
        Ok(Map::empty())
    } else {
        match workflows_of(entries.drop_last()) {
            Ok(workflows) => with_entry(workflows, entries.last()),
            Err(message) => Err(message),
        }
    }
}

/// The workflows of a folder, or why there are none.
pub open spec fn workflows_in(path: Seq<char>, folder: Folder) -> Result<
    Map<Seq<char>, JsonTree>,
    Seq<char>,
> {
    match folder {
        Folder::Missing => Err("Workflows folder does not exist: "@ + path),
        Folder::NotADirectory => Err("Workflows path is not a directory: "@ + path),
        Folder::Unreadable(reason) => Err("Failed to read workflows directory: "@ + reason@),
        Folder::Listing(entries) => workflows_of(entries@),
    }
}

/// Workflows, or why there are none, as a mathematical object.
pub open spec fn loaded_view(loaded: Result<Workflows, String>) -> Result<
    Map<Seq<char>, JsonTree>,
    Seq<char>,
> {
    match loaded {
        Ok(workflows) => Ok(workflows@),
        Err(message) => Err(message@),
    }
}

impl WorkflowsLoader {
    /// Whether a file with that ending holds a workflow.
    pub fn is_workflow(extension: &Option<String>) -> (workflow: bool)
        ensures
            workflow == is_workflow_ending(text_view(*extension)),
    {
        match extension {
            Some(extension) => same_but_for_case(extension.as_str(), "json"),
            None => false,
        }
    }

    /// The workflows with that one, from the outcome of parsing its file.
    pub fn add_parsed(
        workflows: Workflows,
        name: &str,
        shown_path: &str,
        parsed: Result<Json, String>,
    ) -> (loaded: Result<Workflows, String>)
        ensures
            loaded_view(loaded) == with_parsed(
                workflows@,
                name@,
                shown_path@,
                parse_view(parsed),
            ),
    {
        match parsed {
            Ok(workflow) => Ok(workflows.with(name, workflow)),
            Err(message) => Err(
                "Failed to parse JSON from ".to_owned().concat(shown_path).concat(": ").concat(
                    message.as_str(),
                ),
            ),
        }
    }

    fn add_entry(workflows: Workflows, entry: &FolderEntry) -> (loaded: Result<Workflows, String>)
        ensures
            loaded_view(loaded) == with_entry(workflows@, *entry),
    {
        let file = match entry {
            FolderEntry::Unreadable(reason) => {
                return Err(
                    "Failed to read directory entry: ".to_owned().concat(reason.as_str()),
                );
            },
            FolderEntry::File(file) => file,
        };
        if !WorkflowsLoader::is_workflow(&file.extension) {
            return Ok(workflows);
        }
        let name = match &file.stem {
            Some(name) => name,
            None => {
                return Err(
                    "Failed to get filename for: ".to_owned().concat(file.quoted_path.as_str()),
                );
            },
        };
        let text = match &file.content {
            Ok(text) => text,
            Err(reason) => {
                return Err(
                    "Failed to read JSON file ".to_owned().concat(
                        file.shown_path.as_str(),
                    ).concat(": ").concat(reason.as_str()),
                );
            },
        };
        WorkflowsLoader::add_parsed(
            workflows,
            name.as_str(),
            file.shown_path.as_str(),
            parse_text(text.as_str()),
        )
    }

    /// The workflows of a folder, from what was found at its path: every JSON file is one, under
    /// its name without the ending.
    pub fn load_from_folder(folder_path: &str, folder: Folder) -> (loaded: Result<
        Workflows,
        String,
    >)
        ensures
            loaded_view(loaded) == workflows_in(folder_path@, folder),
    {
        let entries = match folder {
            Folder::Missing => {
                return Err("Workflows folder does not exist: ".to_owned().concat(folder_path));
            },
            Folder::NotADirectory => {
                return Err("Workflows path is not a directory: ".to_owned().concat(folder_path));
            },
            Folder::Unreadable(reason) => {
                return Err(
                    "Failed to read workflows directory: ".to_owned().concat(reason.as_str()),
                );
            },
            Folder::Listing(entries) => entries,
        };
        let ghost all = entries@;
        let mut workflows = Workflows::new();
        let mut i: usize = 0;
        while i < entries.len()
            invariant
                i <= entries.len(),
                all == entries@,
                folder == Folder::Listing(entries),
                workflows_of(all.take(i as int)) == Ok::<Map<Seq<char>, JsonTree>, Seq<char>>(
                    workflows@,
                ),
            decreases entries.len() - i,
        {
            assert(all.take(i + 1).drop_last() =~= all.take(i as int));
            match WorkflowsLoader::add_entry(workflows, &entries[i]) {
                Ok(more) => {
                    workflows = more;
                },
                Err(message) => {
                    proof {
                        failure_decides(all, i + 1, message@);
                    }
                    return Err(message);
                },
            }
            i = i + 1;
        }
        assert(all.take(all.len() as int) =~= all);
        Ok(workflows)
    }
}

/// Where the first entries fail, all of them fail for the same reason.
proof fn failure_decides(entries: Seq<FolderEntry>, count: int, message: Seq<char>)
    requires
        0 <= count <= entries.len(),
        workflows_of(entries.take(count)) == Err::<Map<Seq<char>, JsonTree>, Seq<char>>(message),
    ensures
        workflows_of(entries) == Err::<Map<Seq<char>, JsonTree>, Seq<char>>(message),
    decreases entries.len(),
{
    if count == entries.len() {
        assert(entries.take(count) =~= entries);
    } else {
        assert(entries.drop_last().take(count) =~= entries.take(count));
        failure_decides(entries.drop_last(), count, message);
    }
}

/// The entry is the file of the workflow of that name.
pub open spec fn is_file_of(entry: FolderEntry, name: Seq<char>) -> bool {
    entry matches FolderEntry::File(file) && is_workflow_ending(text_view(file.extension))
        && text_view(file.stem) == Some(name)
}

/// A folder that loads holds each of its JSON files under its name without the ending: the
/// workflow of a name is what its last file parses as.
pub proof fn workflow_is_named_after_its_file(
    entries: Seq<FolderEntry>,
    at: int,
    name: Seq<char>,
)
    requires
        workflows_of(entries) is Ok,
        0 <= at < entries.len(),
        is_file_of(entries[at], name),
        forall|k: int| at < k < entries.len() ==> !is_file_of(#[trigger] entries[k], name),
    ensures
        entries[at]->File_0.content is Ok,
        parsed_text(entries[at]->File_0.content->Ok_0@) is Ok,
        workflows_of(entries)->Ok_0.contains_key(name),
        workflows_of(entries)->Ok_0[name] == parsed_text(
            entries[at]->File_0.content->Ok_0@,
        )->Ok_0,
    decreases entries.len(),
{
    let front = entries.drop_last();
    if at < entries.len() - 1 {
        assert(front[at] == entries[at]);
        assert forall|k: int| at < k < front.len() implies !is_file_of(
            #[trigger] front[k],
            name,
        ) by {
            assert(front[k] == entries[k]);
        }
        workflow_is_named_after_its_file(front, at, name);
        assert(!is_file_of(entries[entries.len() - 1], name));
    }
}

/// A folder that loads holds nothing but its JSON files: every name is that of one of them.
pub proof fn every_workflow_has_a_file(entries: Seq<FolderEntry>, name: Seq<char>)
    requires
        workflows_of(entries) is Ok,
        workflows_of(entries)->Ok_0.contains_key(name),
    ensures
        exists|k: int| 0 <= k < entries.len() && is_file_of(#[trigger] entries[k], name),
    decreases entries.len(),
{
    if entries.len() > 0 {
        let front = entries.drop_last();
        if is_file_of(entries.last(), name) {
            assert(is_file_of(entries[entries.len() - 1], name));
        } else {
            every_workflow_has_a_file(front, name);
            let k = choose|k: int| 0 <= k < front.len() && is_file_of(#[trigger] front[k], name);
            assert(entries[k] == front[k]);
        }
    }
}

} // verus!
