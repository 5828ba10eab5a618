//! The persistence hunter: where programs that start with the system are
//! registered, and what of the things found there is reported.

use vstd::prelude::*;
use vstd::string::*;
use crate::tools::schema::{ParamDef, ToolSchema};

verus! {

/// A root of the registry.
#[derive(Clone, Copy, Debug, PartialEq, Eq, Structural)]
pub enum Hive {
    CurrentUser,
    LocalMachine,
}

impl Hive {
    /// The short name under which the hive is reported.
    pub fn label(&self) -> (label: &'static str)
        ensures
            label@ == (match self {
                Hive::CurrentUser => "HKCU"@,
                Hive::LocalMachine => "HKLM"@,
            }),
    {
        match self {
            Hive::CurrentUser => "HKCU",
            Hive::LocalMachine => "HKLM",
        }
    }
}

/// A registry key whose values name programs to start.
#[derive(Clone, Copy, Debug)]
pub struct RunKey {
    pub hive: Hive,
    pub path: &'static str,
}

/// One thing found in a place where programs register to be started.
#[derive(Debug)]
#[allow(inconsistent_fields)]
pub enum PersistenceItem {
    /// A value of a run key.
    Registry { hive: Hive, path: &'static str, name: String, value: String },
    /// A file in a startup folder.
    File { path: String, name: String },
}

impl PersistenceItem {
    /// The word under which the kind of the item is reported.
    pub fn kind(&self) -> (label: &'static str)
        ensures
            label@ == (match self {
                PersistenceItem::Registry { .. } => "registry"@,
                PersistenceItem::File { .. } => "file"@,
            }),
    {
        match self {
            PersistenceItem::Registry { .. } => "registry",
            PersistenceItem::File { .. } => "file",
        }
    }
}

/// What an item is, as a mathematical value.
#[allow(inconsistent_fields)]
pub enum PersistenceItemView {
    Registry { hive: Hive, path: Seq<char>, name: Seq<char>, value: Seq<char> },
    File { path: Seq<char>, name: Seq<char> },
}

impl View for PersistenceItem {
    type V = PersistenceItemView;

    open spec fn view(&self) -> PersistenceItemView {
        match self {
            PersistenceItem::Registry { hive, path, name, value } => PersistenceItemView::Registry {
                hive: *hive,
                path: path@,
                name: name@,
                value: value@,
            },
            PersistenceItem::File { path, name } => PersistenceItemView::File {
                path: path@,
                name: name@,
            },
        }
    }
}

/// The values of a sequence of items.
pub open spec fn item_views(items: Seq<PersistenceItem>) -> Seq<PersistenceItemView> {
    items.map_values(|item: PersistenceItem| item@)
}

/// What was read from one run key: the name and the text of each of its
/// values, in the order in which the registry gave them.
#[derive(Debug)]
pub struct RunKeyValues {
    pub key: RunKey,
    pub values: Vec<(String, String)>,
}

/// One entry of a startup folder.
#[derive(Debug)]
pub struct StartupEntry {
    pub is_file: bool,
    pub path: String,
    pub name: String,
}

/// The texts of the values of a run key.
pub open spec fn value_texts(values: Seq<(String, String)>) -> Seq<(Seq<char>, Seq<char>)> {
    values.map_values(|v: (String, String)| (v.0@, v.1@))
}

/// The items that the values of one run key give: one for each value with a
/// name, in the order of the values.
pub open spec fn key_items(key: RunKey, values: Seq<(Seq<char>, Seq<char>)>) -> Seq<
    PersistenceItemView,
>
    decreases values.len(),
{
    if values.len() == 0 {
        Seq::empty()
    } else if values.last().0.len() > 0 {
        key_items(key, values.drop_last()).push(
            PersistenceItemView::Registry {
                hive: key.hive,
                path: key.path@,
                name: values.last().0,
                value: values.last().1,
            },
        )
    } else {
        key_items(key, values.drop_last())
    }
}

/// The items that the run keys give, key after key.
pub open spec fn registry_items(keys: Seq<RunKeyValues>) -> Seq<PersistenceItemView>
    decreases keys.len(),
{
    if keys.len() == 0 {
        Seq::empty()
    } else {
        registry_items(keys.drop_last()) + key_items(
            keys.last().key,
            value_texts(keys.last().values@),
        )
    }
}

/// The items that the entries of the startup folders give: one for each
/// entry that is a file, in the order of the entries.
pub open spec fn startup_items(entries: Seq<StartupEntry>) -> Seq<PersistenceItemView>
    decreases entries.len(),
{
    if entries.len() == 0 {
        Seq::empty()
    } else if entries.last().is_file {
        startup_items(entries.drop_last()).push(
            PersistenceItemView::File { path: entries.last().path@, name: entries.last().name@ },
        )
    } else {
        startup_items(entries.drop_last())
    }
}

/// Answer of the persistence hunter.
#[derive(Debug)]
pub struct PersistenceReport {
    pub count: usize,
    pub items: Vec<PersistenceItem>,
}

/// The run keys that are scanned, in the order of the scan.
pub open spec fn scanned_keys() -> Seq<RunKey> {
    seq![
        RunKey { hive: Hive::CurrentUser, path: "Software\\Microsoft\\Windows\\CurrentVersion\\Run" },
        RunKey {
            hive: Hive::CurrentUser,
            path: "Software\\Microsoft\\Windows\\CurrentVersion\\RunOnce",
        },
        RunKey { hive: Hive::LocalMachine, path: "Software\\Microsoft\\Windows\\CurrentVersion\\Run" },
        RunKey {
            hive: Hive::LocalMachine,
            path: "Software\\Microsoft\\Windows\\CurrentVersion\\RunOnce",
        },
        RunKey {
            hive: Hive::LocalMachine,
            path: "Software\\WOW6432Node\\Microsoft\\Windows\\CurrentVersion\\Run",
        },
    ]
}

/// Scans run keys and startup folders.
pub struct PersistenceHunter;

impl PersistenceHunter {
    pub fn name(&self) -> (name: &'static str)
        ensures
            name@ == "scan_persistence"@,
    {
        "scan_persistence"
    }

    pub fn description(&self) -> (text: &'static str)
        ensures
            text@
                == "Scans registry Run keys and Startup folders for persistence mechanisms. No args."@,
    {
        "Scans registry Run keys and Startup folders for persistence mechanisms. No args."
    }

    /// The tool declares no parameters.
    pub fn schema(&self) -> (schema: ToolSchema)
        ensures
            schema.params@ == Seq::<ParamDef>::empty(),
    {
        ToolSchema::empty()
    }

    /// The run keys to scan: `Run` and `RunOnce` of the current user and of
    /// the machine, and the `Run` key of 32-bit programs on a 64-bit system.
    pub fn run_keys(&self) -> (keys: Vec<RunKey>)
        ensures
            keys@ == scanned_keys(),
    {
        let mut keys: Vec<RunKey> = Vec::new();
        keys.push(
            RunKey {
                hive: Hive::CurrentUser,
                path: "Software\\Microsoft\\Windows\\CurrentVersion\\Run",
            },
        );
        keys.push(
            RunKey {
                hive: Hive::CurrentUser,
                path: "Software\\Microsoft\\Windows\\CurrentVersion\\RunOnce",
            },
        );
        keys.push(
            RunKey {
                hive: Hive::LocalMachine,
                path: "Software\\Microsoft\\Windows\\CurrentVersion\\Run",
            },
        );
        keys.push(
            RunKey {
                hive: Hive::LocalMachine,
                path: "Software\\Microsoft\\Windows\\CurrentVersion\\RunOnce",
            },
        );
        keys.push(
            RunKey {
                hive: Hive::LocalMachine,
                path: "Software\\WOW6432Node\\Microsoft\\Windows\\CurrentVersion\\Run",
            },
        );
        assert(keys@ =~= scanned_keys());
        keys
    }

    /// The environment variables that name the directories under which the
    /// startup folders lie: the one of the user, then the one of all users.
    pub fn startup_variables(&self) -> (names: Vec<&'static str>)
        ensures
            names@.len() == 2,
            names@[0]@ == "APPDATA"@,
            names@[1]@ == "PROGRAMDATA"@,
    {
        let mut names: Vec<&'static str> = Vec::new();
        names.push("APPDATA");
        names.push("PROGRAMDATA");
        names
    }

    /// Where the startup folder lies under such a directory.
    pub fn startup_suffix(&self) -> (suffix: &'static str)
        ensures
            suffix@ == "Microsoft\\Windows\\Start Menu\\Programs\\Startup"@,
    {
        "Microsoft\\Windows\\Start Menu\\Programs\\Startup"
    }

    /// The name that stands for a registry value that could not be read.
    pub fn unreadable_name(&self) -> (name: &'static str)
        ensures
            name@ == "Error"@,
    {
        "Error"
    }

    /// What is reported of the value `name` of the run key `key`: the
    /// value, unless its name is empty.
    pub fn registry_item(&self, key: &RunKey, name: String, value: String) -> (item: Option<
        PersistenceItem,
    >)
        ensures
            name@.len() == 0 ==> item is None,
            name@.len() > 0 ==> item is Some && item->0@ == (PersistenceItemView::Registry {
                hive: key.hive,
                path: key.path@,
                name: name@,
                value: value@,
            }),
    {
        if name.as_str().is_empty() {
            None
        } else {
            Some(PersistenceItem::Registry { hive: key.hive, path: key.path, name, value })
        }
    }

    /// What is reported of an entry of a startup folder: the entry, if it
    /// is a file.
    pub fn file_item(&self, is_file: bool, path: String, name: String) -> (item: Option<
        PersistenceItem,
    >)
        ensures
            !is_file ==> item is None,
            is_file ==> item is Some && item->0@ == (PersistenceItemView::File {
                path: path@,
                name: name@,
            }),
    {
        if is_file {
            Some(PersistenceItem::File { path, name })
        } else {
            None
        }
    }

    /// The report of a scan that found `items`.
    pub fn report(&self, items: Vec<PersistenceItem>) -> (report: PersistenceReport)
        ensures
            report.items == items,
            report.count == items@.len(),
    {
        PersistenceReport { count: items.len(), items }
    }

    /// The report of a scan: what the run keys gave, key after key, and
    /// behind it what the startup folders gave. Values without a name and
    /// entries that are no files are left out.
    pub fn scan_report(
        &self,
        keys: Vec<RunKeyValues>,
        entries: Vec<StartupEntry>,
    ) -> (report: PersistenceReport)
        ensures
            item_views(report.items@) == registry_items(keys@) + startup_items(entries@),
            report.count == report.items@.len(),
    {
        let mut items: Vec<PersistenceItem> = Vec::new();
        let ghost all_keys = keys@;
        assert(item_views(items@) =~= registry_items(all_keys.subrange(0, 0)));
        for read in key_iter: keys.into_iter()
            invariant
                key_iter.seq() == all_keys,
                item_views(items@) == registry_items(all_keys.subrange(0, key_iter.index() as int)),
        {
            let ghost before = item_views(items@);
            let ghost texts = value_texts(read.values@);
            let key = read.key;
            assert(item_views(items@) =~= before + key_items(key, texts.subrange(0, 0)));
            for value in value_iter: read.values.into_iter()
                invariant
                    value_texts(value_iter.seq()) == texts,
                    item_views(items@) == before + key_items(
                        key,
                        texts.subrange(0, value_iter.index() as int),
                    ),
            {
                proof {
                    let done = texts.subrange(0, value_iter.index() as int);
                    let next = texts.subrange(0, value_iter.index() + 1);
                    assert(next.drop_last() =~= done);
                    assert(next.last() == (value.0@, value.1@));
                }
                let ghost held = item_views(items@);
                let (name, text) = value;
                match self.registry_item(&key, name, text) {
                    Some(item) => {
                        items.push(item);
                        assert(item_views(items@) =~= held.push(item@));
                    },
                    None => {},
                }
            }
            proof {
                let done = all_keys.subrange(0, key_iter.index() as int);
                let next = all_keys.subrange(0, key_iter.index() + 1);
                assert(next.drop_last() =~= done);
                assert(next.last() == read);
                assert(texts.subrange(0, texts.len() as int) =~= texts);
            }
        }
        assert(all_keys.subrange(0, all_keys.len() as int) =~= all_keys);
        let ghost found = item_views(items@);
        let ghost all_entries = entries@;
        assert(item_views(items@) =~= found + startup_items(all_entries.subrange(0, 0)));
        for entry in entry_iter: entries.into_iter()
            invariant
                entry_iter.seq() == all_entries,
                item_views(items@) == found + startup_items(
                    all_entries.subrange(0, entry_iter.index() as int),
                ),
        {
            proof {
                let done = all_entries.subrange(0, entry_iter.index() as int);
                let next = all_entries.subrange(0, entry_iter.index() + 1);
                assert(next.drop_last() =~= done);
                assert(next.last() == entry);
            }
            let ghost held = item_views(items@);
            match self.file_item(entry.is_file, entry.path, entry.name) {
                Some(item) => {
                    items.push(item);
                    assert(item_views(items@) =~= held.push(item@));
                },
                None => {},
            }
        }
        assert(all_entries.subrange(0, all_entries.len() as int) =~= all_entries);
        self.report(items)
    }
}

} // verus!
