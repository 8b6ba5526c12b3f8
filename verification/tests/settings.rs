use komadome::build_stats::{BuildStats, Counter};
use komadome::cli::{
    clean_targets, confirmed, export_plan, index_scope, CleanArgs, ExportTarget, IndexScope,
};
use komadome::clock::{parse_build_date, resolve_build_date, BuildDateCell};
use komadome::config::{
    database_url, default_jobs, default_page_size, resolve_zip_dir, AssetsConfig, BuildConfig, Config, DataConfig,
    DatabaseConfig, OutputConfig, TemplatesConfig,
};
use komadome::models::Date;
use komadome::text::trim;

fn config() -> Config {
    Config {
        output: OutputConfig { directory: "out".to_string(), main_site_url: "https://a".to_string() },
        templates: TemplatesConfig { directory: "tpl".to_string() },
        data: DataConfig { directory: "data".to_string() },
        build: BuildConfig { default_jobs: default_jobs(), page_size: default_page_size() },
        database: None,
        assets: None,
    }
}

#[test]
fn defaults() {
    assert_eq!(default_jobs(), 8);
    assert_eq!(default_page_size(), 50);
    let c = config();
    assert_eq!(c.jobs(None), 8);
    assert_eq!(c.jobs(Some(3)), 3);
}

#[test]
fn env_overrides_only_when_not_empty() {
    let mut c = config();
    c.apply_env_overrides(Some(String::new()), Some(String::new()));
    assert!(c.database.is_none());
    assert_eq!(c.output.main_site_url, "https://a");
    c.apply_env_overrides(Some("postgres://db".to_string()), Some("https://b".to_string()));
    assert_eq!(c.database.as_ref().unwrap().url, "postgres://db");
    assert_eq!(c.output.main_site_url, "https://b");
    c.apply_env_overrides(None, None);
    assert_eq!(c.output.main_site_url, "https://b");
}

#[test]
fn zip_dir_and_database_must_be_configured() {
    let mut c = config();
    assert_eq!(resolve_zip_dir(&c), Err("`[assets] zip_dir` must be configured to generate zip files".to_string()));
    assert!(database_url(&c).is_err());
    c.assets = Some(AssetsConfig { css_dir: None, images_dir: None, card_images_dir: None, zip_dir: Some("z".to_string()) });
    c.database = Some(DatabaseConfig { url: "u".to_string() });
    assert_eq!(resolve_zip_dir(&c), Ok("z".to_string()));
    assert_eq!(database_url(&c), Ok("u".to_string()));
}

#[test]
fn index_scope_by_name() {
    assert!(index_scope(&Some("works".to_string())) == IndexScope::Works);
    assert!(index_scope(&Some("people".to_string())) == IndexScope::People);
    assert!(index_scope(&Some("all".to_string())) == IndexScope::All);
    assert!(index_scope(&None) == IndexScope::All);
}

#[test]
fn export_plan_runs_every_kind_in_order() {
    let all = export_plan(&None).unwrap();
    assert_eq!(all.len(), 12);
    assert!(all[0] == ExportTarget::Masters);
    assert!(all[11] == ExportTarget::ListInp);
    let one = export_plan(&Some("person_pages".to_string())).unwrap();
    assert!(one.len() == 1 && one[0] == ExportTarget::PersonPages);
    assert!(export_plan(&Some("nope".to_string())).is_none());
    for t in ExportTarget::all() {
        assert!(ExportTarget::parse(t.name()) == Some(t));
    }
}

#[test]
fn clean_targets_and_answer() {
    let c = config();
    assert_eq!(clean_targets(&c, &CleanArgs { force: false, data: false }), vec!["out".to_string()]);
    assert_eq!(clean_targets(&c, &CleanArgs { force: true, data: true }), vec!["out".to_string(), "data".to_string()]);
    assert!(confirmed(" y\n"));
    assert!(confirmed("Y"));
    assert!(!confirmed("yes"));
    assert!(!confirmed(""));
}

#[test]
fn build_stats_total_and_record() {
    let mut s = BuildStats::default();
    s.record(Counter::Cards, true);
    s.record(Counter::Wip, true);
    s.record(Counter::People, false);
    assert_eq!(s.total(), 2);
    assert_eq!(s.errors, 1);
    assert_eq!(s.cards_built, 1);
    assert_eq!(s.wip_built, 1);
}

#[test]
fn build_date_resolution() {
    let today = Date { year: 2025, month: 1, day: 2 };
    let pinned = Date { year: 2020, month: 5, day: 6 };
    assert_eq!(resolve_build_date(Some(pinned), Some("2021-01-01"), today).year, 2020);
    let from_env = resolve_build_date(None, Some(" 2021-03-04\n"), today);
    assert_eq!((from_env.year, from_env.month, from_env.day), (2021, 3, 4));
    assert_eq!(resolve_build_date(None, Some("bogus"), today).year, 2025);
    assert_eq!(resolve_build_date(None, None, today).year, 2025);
    assert!(parse_build_date("2021-02-30").is_none());
}

#[test]
fn trim_strips_unicode_white_space() {
    assert_eq!(trim("\u{3000} a b \t\n"), "a b");
    assert_eq!(trim("   "), "");
    assert_eq!(trim("x"), "x");
}

#[test]
fn build_date_is_pinned_once() {
    let today = Date { year: 2025, month: 1, day: 2 };
    let later = Date { year: 2026, month: 7, day: 8 };
    let mut cell = BuildDateCell::new();
    assert!(cell.pinned.is_none());
    cell.pin(None, Some("2021-03-04"), today);
    let first = cell.date(None, later);
    assert_eq!((first.year, first.month, first.day), (2021, 3, 4));
    cell.pin(Some(later), None, later);
    let again = cell.date(Some("2030-01-01"), later);
    assert_eq!((again.year, again.month, again.day), (2021, 3, 4));

    let mut unpinned = BuildDateCell::new();
    let read = unpinned.date(Some("nonsense"), today);
    assert_eq!((read.year, read.month, read.day), (2025, 1, 2));
    unpinned.pin(Some(later), None, later);
    assert_eq!(unpinned.date(None, later).year, 2025);
}
