//! The commands and their options, and the decisions that depend on them
//! alone: which indexes to build, which data to export, what to clean.
use vstd::prelude::*;
use crate::config::Config;
use crate::text::{owned, str_equal, trim, trimmed};

verus! {

/// A command of the program.
pub enum Commands {
    /// Build all pages.
    Build(BuildArgs),
    /// Build card pages only.
    Cards(CardsArgs),
    /// Build person pages only.
    People(PeopleArgs),
    /// Build index pages only.
    Indexes(IndexesArgs),
    /// Build whatsnew pages only.
    Whatsnew(WhatsnewArgs),
    /// Build soramoyou (news) pages only.
    Soramoyou(SoramoyouArgs),
    /// Clean the output directory.
    Clean(CleanArgs),
    /// Export data from the database to JSONL files.
    Export(ExportArgs),
    /// Generate the downloadable CSV zip files.
    GenerateZip,
    /// Show statistics.
    Stats,
    /// Validate templates against their contracts.
    Validate,
}

/// Options of `build`.
pub struct BuildArgs {
    /// Number of parallel jobs.
    pub jobs: Option<usize>,
}

/// Options of `cards`.
pub struct CardsArgs {
    pub jobs: Option<usize>,
    /// Build only this work's card.
    pub work_id: Option<i64>,
}

/// Options of `people`.
pub struct PeopleArgs {
    pub jobs: Option<usize>,
    /// Build only this person's page.
    pub person_id: Option<i64>,
}

/// Options of `indexes`.
pub struct IndexesArgs {
    pub jobs: Option<usize>,
    /// Which indexes: "works", "people" or "all".
    pub index_type: Option<String>,
}

/// Options of `whatsnew`.
pub struct WhatsnewArgs {
    pub jobs: Option<usize>,
}

/// Options of `soramoyou`.
pub struct SoramoyouArgs {
    pub jobs: Option<usize>,
}

/// Options of `clean`.
pub struct CleanArgs {
    /// Clean without asking.
    pub force: bool,
    /// Clean the data directory too.
    pub data: bool,
}

/// Options of `export`.
pub struct ExportArgs {
    /// Export this kind of data only.
    pub only: Option<String>,
}

/// The indexes that `indexes` builds.
#[derive(PartialEq, Eq, Structural, Clone, Copy)]
pub enum IndexScope {
    Works,
    People,
    All,
}

/// The indexes asked for: works or people by name, all otherwise.
pub fn index_scope(index_type: &Option<String>) -> (r: IndexScope)
    ensures
        r == match *index_type {
            Some(t) => if t@ == "works"@ {
                IndexScope::Works
            } else if t@ == "people"@ {
                IndexScope::People
            } else {
                IndexScope::All
            },
            None => IndexScope::All,
        },
{
    match index_type {
        Some(t) => {
            if str_equal(t.as_str(), "works") {
                IndexScope::Works
            } else if str_equal(t.as_str(), "people") {
                IndexScope::People
            } else {
                IndexScope::All
            }
        },
        None => IndexScope::All,
    }
}

/// A kind of data that `export` writes.
#[derive(PartialEq, Eq, Structural, Clone, Copy)]
pub enum ExportTarget {
    Masters,
    Cards,
    PersonPages,
    WorkIndexes,
    PersonIndexes,
    Whatsnew,
    News,
    Top,
    WipWorkIndexes,
    WipPersonIndexes,
    PersonAllIndexes,
    ListInp,
}

/// Every kind of export, in the order a full export runs them.
pub open spec fn export_order() -> Seq<ExportTarget> {
    seq![
        ExportTarget::Masters,
        ExportTarget::Cards,
        ExportTarget::PersonPages,
        ExportTarget::WorkIndexes,
        ExportTarget::PersonIndexes,
        ExportTarget::Whatsnew,
        ExportTarget::News,
        ExportTarget::Top,
        ExportTarget::WipWorkIndexes,
        ExportTarget::WipPersonIndexes,
        ExportTarget::PersonAllIndexes,
        ExportTarget::ListInp,
    ]
}

/// The option value that names a kind of export.
pub open spec fn target_name(t: ExportTarget) -> Seq<char> {
    match t {
        ExportTarget::Masters => "masters"@,
        ExportTarget::Cards => "cards"@,
        ExportTarget::PersonPages => "person_pages"@,
        ExportTarget::WorkIndexes => "work_indexes"@,
        ExportTarget::PersonIndexes => "person_indexes"@,
        ExportTarget::Whatsnew => "whatsnew"@,
        ExportTarget::News => "news"@,
        ExportTarget::Top => "top"@,
        ExportTarget::WipWorkIndexes => "wip_work_indexes"@,
        ExportTarget::WipPersonIndexes => "wip_person_indexes"@,
        ExportTarget::PersonAllIndexes => "person_all_indexes"@,
        ExportTarget::ListInp => "list_inp"@,
    }
}

impl ExportTarget {
    /// The option value that names this kind.
    pub fn name(&self) -> (r: &'static str)
        ensures
            r@ == target_name(*self),
    {
        match self {
            ExportTarget::Masters => "masters",
            ExportTarget::Cards => "cards",
            ExportTarget::PersonPages => "person_pages",
            ExportTarget::WorkIndexes => "work_indexes",
            ExportTarget::PersonIndexes => "person_indexes",
            ExportTarget::Whatsnew => "whatsnew",
            ExportTarget::News => "news",
            ExportTarget::Top => "top",
            ExportTarget::WipWorkIndexes => "wip_work_indexes",
            ExportTarget::WipPersonIndexes => "wip_person_indexes",
            ExportTarget::PersonAllIndexes => "person_all_indexes",
            ExportTarget::ListInp => "list_inp",
        }
    }

    /// Every kind, in the order a full export runs them.
    pub fn all() -> (r: Vec<ExportTarget>)
        ensures
            r@ == export_order(),
    {
        let v: Vec<ExportTarget> = vec![
            ExportTarget::Masters,
            ExportTarget::Cards,
            ExportTarget::PersonPages,
            ExportTarget::WorkIndexes,
            ExportTarget::PersonIndexes,
            ExportTarget::Whatsnew,
            ExportTarget::News,
            ExportTarget::Top,
            ExportTarget::WipWorkIndexes,
            ExportTarget::WipPersonIndexes,
            ExportTarget::PersonAllIndexes,
            ExportTarget::ListInp,
        ];
        assert(v@ =~= export_order());
        v
    }

    /// The kind that `name` names.
    pub fn parse(name: &str) -> (r: Option<ExportTarget>)
        ensures
            match r {
                Some(t) => target_name(t) == name@,
                None => forall|t: ExportTarget| target_name(t) != name@,
            },
    {
        let all = ExportTarget::all();
        let mut i: usize = 0;
        while i < all.len()
            invariant
                i <= all.len(),
                all@ == export_order(),
                forall|j: int| 0 <= j < i ==> target_name(#[trigger] export_order()[j]) != name@,
            decreases all.len() - i,
        {
            if str_equal(all[i].name(), name) {
                return Some(all[i]);
            }
            i = i + 1;
        }
        assert forall|t: ExportTarget| target_name(t) != name@ by {
            let k: int = match t {
                ExportTarget::Masters => 0,
                ExportTarget::Cards => 1,
                ExportTarget::PersonPages => 2,
                ExportTarget::WorkIndexes => 3,
                ExportTarget::PersonIndexes => 4,
                ExportTarget::Whatsnew => 5,
                ExportTarget::News => 6,
                ExportTarget::Top => 7,
                ExportTarget::WipWorkIndexes => 8,
                ExportTarget::WipPersonIndexes => 9,
                ExportTarget::PersonAllIndexes => 10,
                ExportTarget::ListInp => 11,
            };
            assert(export_order()[k] == t);
        }
        None
    }
}

/// What `export` runs: the one kind asked for, else every kind in order;
/// `None` when the name is no kind's.
pub fn export_plan(only: &Option<String>) -> (r: Option<Vec<ExportTarget>>)
    ensures
        match *only {
            Some(n) => match r {
                Some(v) => v@.len() == 1 && target_name(v@[0]) == n@,
                None => forall|t: ExportTarget| target_name(t) != n@,
            },
            None => r matches Some(v) && v@ == export_order(),
        },
{
    match only {
        Some(n) => match ExportTarget::parse(n.as_str()) {
            Some(t) => {
                let v: Vec<ExportTarget> = vec![t];
                Some(v)
            },
            None => None,
        },
        None => Some(ExportTarget::all()),
    }
}

/// The directories that `clean` empties: the output, and the data too when asked.
pub fn clean_targets(config: &Config, args: &CleanArgs) -> (r: Vec<String>)
    ensures
        r@.len() == if args.data { 2int } else { 1int },
        r@[0]@ == config.output.directory@,
        args.data ==> r@[1]@ == config.data.directory@,
{
    let mut v: Vec<String> = Vec::new();
    v.push(owned(config.output.directory.as_str()));
    if args.data {
        v.push(owned(config.data.directory.as_str()));
    }
    v
}

/// Whether an answer to the clean prompt agrees: "y" or "Y", white space
/// around it ignored.
pub fn confirmed(answer: &str) -> (r: bool)
    ensures
        r == (trimmed(answer@) == seq!['y'] || trimmed(answer@) == seq!['Y']),
{
    let t = trim(answer);
    if t.unicode_len() != 1 {
        assert(t@ != seq!['y'] && t@ != seq!['Y']);
        return false;
    }
    let c = t.get_char(0);
    assert(t@ =~= seq![c]);
    c == 'y' || c == 'Y'
}

/// A full export runs every kind exactly once, and the option names of
/// the kinds differ.
pub proof fn lemma_export_order()
    ensures
        export_order().no_duplicates(),
        forall|t: ExportTarget| #[trigger] export_order().contains(t),
        forall|a: ExportTarget, b: ExportTarget| a != b ==> target_name(a) != target_name(b),
{
    let o = export_order();
    assert forall|t: ExportTarget| #[trigger] o.contains(t) by {
        let k: int = match t {
            ExportTarget::Masters => 0,
            ExportTarget::Cards => 1,
            ExportTarget::PersonPages => 2,
            ExportTarget::WorkIndexes => 3,
            ExportTarget::PersonIndexes => 4,
            ExportTarget::Whatsnew => 5,
            ExportTarget::News => 6,
            ExportTarget::Top => 7,
            ExportTarget::WipWorkIndexes => 8,
            ExportTarget::WipPersonIndexes => 9,
            ExportTarget::PersonAllIndexes => 10,
            ExportTarget::ListInp => 11,
        };
        assert(o[k] == t);
    }
    reveal_strlit("masters");
    reveal_strlit("cards");
    reveal_strlit("person_pages");
    reveal_strlit("work_indexes");
    reveal_strlit("person_indexes");
    reveal_strlit("whatsnew");
    reveal_strlit("news");
    reveal_strlit("top");
    reveal_strlit("wip_work_indexes");
    reveal_strlit("wip_person_indexes");
    reveal_strlit("person_all_indexes");
    reveal_strlit("list_inp");
    assert forall|a: ExportTarget, b: ExportTarget| a != b implies target_name(a) != target_name(b) by {
        if target_name(a) == target_name(b) {
            assert(target_name(a).len() == target_name(b).len());
            assert(target_name(a)[0] == target_name(b)[0]);
            if target_name(a).len() > 5 {
                assert(target_name(a)[5] == target_name(b)[5]);
            }
            if target_name(a).len() > 11 {
                assert(target_name(a)[11] == target_name(b)[11]);
            }
        }
    }
}

} // verus!
