//! The site configuration: where things are, how the build runs, and the
//! environment values that override the file.
use vstd::prelude::*;
use crate::text::owned;

verus! {

/// The whole configuration.
pub struct Config {
    pub output: OutputConfig,
    pub templates: TemplatesConfig,
    pub data: DataConfig,
    pub build: BuildConfig,
    pub database: Option<DatabaseConfig>,
    pub assets: Option<AssetsConfig>,
}

/// Where the site is written and the address of the main site.
pub struct OutputConfig {
    pub directory: String,
    pub main_site_url: String,
}

/// Where the page templates are.
pub struct TemplatesConfig {
    pub directory: String,
}

/// Where the exported data files are.
pub struct DataConfig {
    pub directory: String,
}

/// How the build runs.
pub struct BuildConfig {
    pub default_jobs: usize,
    pub page_size: usize,
}

/// The database to export from.
pub struct DatabaseConfig {
    pub url: String,
}

/// Directories of static assets to copy into the site.
pub struct AssetsConfig {
    /// Precompiled style sheets.
    pub css_dir: Option<String>,
    /// Public images.
    pub images_dir: Option<String>,
    /// Card images.
    pub card_images_dir: Option<String>,
    /// The CSV zip archives.
    pub zip_dir: Option<String>,
}

/// Parallel jobs when the file names none.
pub fn default_jobs() -> (r: usize)
    ensures
        r == 8,
{
    8
}

/// Entries per index page when the file names none.
pub fn default_page_size() -> (r: usize)
    ensures
        r == 50,
{
    50
}

impl Config {
    /// Overrides the database address and the main site address with the
    /// environment's values (`KOMADOME_DATABASE_URL`,
    /// `KOMADOME_MAIN_SITE_URL`), each only when set and not empty.
    pub fn apply_env_overrides(&mut self, database_url: Option<String>, main_site_url: Option<String>)
        ensures
            final(self).database == (match database_url {
                Some(u) => if u@.len() > 0 { Some(DatabaseConfig { url: u }) } else { old(self).database },
                None => old(self).database,
            }),
            final(self).output.main_site_url == (match main_site_url {
                Some(u) => if u@.len() > 0 { u } else { old(self).output.main_site_url },
                None => old(self).output.main_site_url,
            }),
            final(self).output.directory == old(self).output.directory,
            final(self).templates == old(self).templates,
            final(self).data == old(self).data,
            final(self).build == old(self).build,
            final(self).assets == old(self).assets,
    {
        match database_url {
            Some(url) => {
                if url.unicode_len() > 0 {
                    self.database = Some(DatabaseConfig { url });
                }
            },
            None => {},
        }
        match main_site_url {
            Some(site_url) => {
                if site_url.unicode_len() > 0 {
                    self.output.main_site_url = site_url;
                }
            },
            None => {},
        }
    }

    /// The number of parallel jobs: the one asked for, else the configured default.
    pub fn jobs(&self, asked: Option<usize>) -> (r: usize)
        ensures
            r == match asked {
                Some(j) => j,
                None => self.build.default_jobs,
            },
    {
        match asked {
            Some(j) => j,
            None => self.build.default_jobs,
        }
    }
}

/// The message when no zip directory is configured.
pub open spec fn no_zip_dir_message() -> Seq<char> {
    "`[assets] zip_dir` must be configured to generate zip files"@
}

/// The configured directory of the CSV zip archives.
pub fn resolve_zip_dir(config: &Config) -> (r: Result<String, String>)
    ensures
        match r {
            Ok(d) => config.assets matches Some(a) && a.zip_dir == Some(d),
            Err(e) => !(config.assets matches Some(a) && a.zip_dir is Some) && e@ == no_zip_dir_message(),
        },
{
    match &config.assets {
        Some(a) => match &a.zip_dir {
            Some(d) => Ok(d.clone()),
            None => Err(owned("`[assets] zip_dir` must be configured to generate zip files")),
        },
        None => Err(owned("`[assets] zip_dir` must be configured to generate zip files")),
    }
}

/// The message when no database is configured.
pub open spec fn no_database_message() -> Seq<char> {
    "Database configuration is required for export. Add [database] section to config."@
}

/// The configured database address.
pub fn database_url(config: &Config) -> (r: Result<String, String>)
    ensures
        match r {
            Ok(u) => config.database matches Some(db) && db.url == u,
            Err(e) => config.database is None && e@ == no_database_message(),
        },
{
    match &config.database {
        Some(db) => Ok(db.url.clone()),
        None => Err(owned("Database configuration is required for export. Add [database] section to config.")),
    }
}

} // verus!
