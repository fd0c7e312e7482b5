//! The note folders the assistant may search: the current workspace's notes, or the
//! notes of every workspace, in the order of their folder names.
use vstd::prelude::*;

use crate::sorting::{ascending_order, is_arrangement, is_ascending};
use crate::text::{chars_eq, chars_of, join_path, join_path_exec, owned, string_from_chars};
use crate::workspace::{strict_folder_spec, strict_workspace_dir_path, strict_workspace_folder};

verus! {

broadcast use vstd::string::group_string_axioms;

/// A workspace's notes folder, as handed to the assistant.
#[derive(Debug, Clone, PartialEq)]
pub struct NoteRoot {
    pub workspace_folder: String,
    pub notes_dir: String,
}

/// One entry of the workspaces directory: its name, and whether it is a directory.
#[derive(Debug, Clone)]
pub struct WorkspaceEntry {
    pub name: String,
    pub is_dir: bool,
}

/// The notes folder inside a workspace folder.
pub open spec fn notes_dir_of(workspace_dir: Seq<char>) -> Seq<char> {
    join_path(workspace_dir, "notes"@)
}

/// The error the scan of the workspaces directory stops at: that of the first
/// directory whose name is not a valid workspace folder.
pub open spec fn scan_error(entries: Seq<WorkspaceEntry>) -> Option<Seq<char>>
    decreases entries.len(),
{
    if entries.len() == 0 {
        None
    } else {
        let before = scan_error(entries.drop_last());
        let e = entries.last();
        if before is Some {
            before
        } else if e.is_dir && strict_folder_spec(e.name@) is Err {
            Some(strict_folder_spec(e.name@)->Err_0)
        } else {
            None
        }
    }
}

/// The directories that are workspace folders exactly as named, in the order listed.
pub open spec fn kept_folders(entries: Seq<WorkspaceEntry>) -> Seq<Seq<char>>
    decreases entries.len(),
{
    if entries.len() == 0 {
        Seq::empty()
    } else {
        let before = kept_folders(entries.drop_last());
        let e = entries.last();
        if e.is_dir && strict_folder_spec(e.name@) == Ok::<Seq<char>, Seq<char>>(e.name@) {
            before.push(e.name@)
        } else {
            before
        }
    }
}

/// Once the scan has met an error, later entries do not change it.
proof fn lemma_scan_error_stays(entries: Seq<WorkspaceEntry>, k: int)
    requires
        0 <= k <= entries.len(),
        scan_error(entries.take(k)) is Some,
    ensures
        scan_error(entries) == scan_error(entries.take(k)),
    decreases entries.len() - k,
{
    if k < entries.len() {
        assert(entries.take(k + 1).drop_last() =~= entries.take(k));
        lemma_scan_error_stays(entries, k + 1);
    } else {
        assert(entries.take(k) =~= entries);
    }
}

/// The root of the current workspace: the folder must be given and be a canonical
/// workspace folder. Whether its directory exists is for the caller to check.
pub fn current_note_root(workspaces_dir: &str, workspace_folder: Option<&str>) -> (r: Result<
    NoteRoot,
    String,
>)
    ensures
        workspace_folder is None ==> (r matches Err(e) && e@
            == "workspaceFolder is required for current scope"@),
        workspace_folder matches Some(f) ==> match strict_folder_spec(f@) {
            Err(msg) => r matches Err(e) && e@ == msg,
            Ok(folder) => r matches Ok(root) && root.workspace_folder@ == f@ && root.notes_dir@
                == notes_dir_of(join_path(workspaces_dir@, folder)),
        },
{
    let folder = match workspace_folder {
        Some(f) => f,
        None => {
            return Err(owned("workspaceFolder is required for current scope"));
        },
    };
    let workspace_dir = strict_workspace_dir_path(workspaces_dir, folder)?;
    Ok(
        NoteRoot {
            workspace_folder: owned(folder),
            notes_dir: join_path_exec(workspace_dir.as_str(), &chars_of("notes")),
        },
    )
}

/// The roots of every workspace, from the entries of the workspaces directory: each
/// directory must have a valid workspace folder name, else the first bad one's error
/// is returned; directories named other than their canonical folder are passed over;
/// the roots come sorted by folder name.
pub fn global_note_roots(workspaces_dir: &str, entries: &Vec<WorkspaceEntry>) -> (r: Result<
    Vec<NoteRoot>,
    String,
>)
    ensures
        scan_error(entries@) matches Some(msg) ==> (r matches Err(e) && e@ == msg),
        scan_error(entries@) is None ==> (r matches Ok(roots) && {
            let kept = kept_folders(entries@);
            exists|order: Seq<usize>|
                {
                    &&& is_arrangement(order, kept.len() as int)
                    &&& is_ascending(kept, order)
                    &&& roots@.len() == kept.len()
                    &&& forall|i: int|
                        0 <= i < roots@.len() ==> (#[trigger] roots@[i]).workspace_folder@
                            == kept[order[i] as int] && roots@[i].notes_dir@ == notes_dir_of(
                            join_path(workspaces_dir@, kept[order[i] as int]),
                        )
                }
        }),
{
    let mut names: Vec<Vec<char>> = Vec::new();
    let mut i: usize = 0;
    assert(entries@.take(0) =~= Seq::<WorkspaceEntry>::empty());
    while i < entries.len()
        invariant
            i <= entries@.len(),
            scan_error(entries@.take(i as int)) is None,
            names@.map_values(|k: Vec<char>| k@) == kept_folders(entries@.take(i as int)),
        decreases entries.len() - i,
    {
        let e = &entries[i];
        proof {
            assert(entries@.take(i + 1).drop_last() =~= entries@.take(i as int));
            assert(entries@.take(i + 1).last() == entries@[i as int]);
        }
        if e.is_dir {
            match strict_workspace_folder(e.name.as_str()) {
                Err(msg) => {
                    proof {
                        lemma_scan_error_stays(entries@, i + 1);
                    }
                    return Err(msg);
                },
                Ok(folder) => {
                    if chars_eq(&folder, &chars_of(e.name.as_str())) {
                        names.push(folder);
                        proof {
                            assert(names@.map_values(|k: Vec<char>| k@) =~= kept_folders(
                                entries@.take(i + 1),
                            ));
                        }
                    }
                },
            }
        }
        i += 1;
    }
    proof {
        assert(entries@.take(entries@.len() as int) =~= entries@);
    }
    let ghost kept = names@.map_values(|k: Vec<char>| k@);
    let order = ascending_order(&names);
    let mut roots: Vec<NoteRoot> = Vec::new();
    let mut k: usize = 0;
    while k < order.len()
        invariant
            k <= order@.len(),
            kept == names@.map_values(|k: Vec<char>| k@),
            is_arrangement(order@, kept.len() as int),
            roots@.len() == k,
            forall|j: int|
                0 <= j < k ==> (#[trigger] roots@[j]).workspace_folder@ == kept[order@[j] as int]
                    && roots@[j].notes_dir@ == notes_dir_of(
                    join_path(workspaces_dir@, kept[order@[j] as int]),
                ),
        decreases order.len() - k,
    {
        let folder = &names[order[k]];
        let workspace_dir = join_path_exec(workspaces_dir, folder.as_slice());
        roots.push(
            NoteRoot {
                workspace_folder: string_from_chars(folder.as_slice()),
                notes_dir: join_path_exec(workspace_dir.as_str(), &chars_of("notes")),
            },
        );
        k += 1;
    }
    Ok(roots)
}

} // verus!
