//! A verified core for a read-only web front end over version-controlled
//! repositories: repository resolution, commit-history pagination with
//! stable cursors, tree and blob rendering, diffs with rename detection,
//! reference enumeration, the README cascade, and feed assembly. The object
//! store itself is an outside capability reached through a narrow trusted
//! interface in `store`.
use vstd::prelude::*;

pub mod blob;
pub mod cursor;
pub mod diff;
pub mod errors;
pub mod filters;
pub mod highlight;
pub mod model;
pub mod pagination;
pub mod paths;
pub mod readme;
pub mod refs;
pub mod resolver;
pub mod store;
pub mod text;
pub mod views;
pub mod web;

verus! {

/// The process-wide configuration, read once at startup and immutable for
/// the process lifetime.
pub struct Config {
    pub port: u16,
    pub projectroot: String,
    pub emoji_favicon: String,
    pub site_name: String,
    pub export_ok: String,
    pub clone_base: String,
    pub log_per_page: usize,
}

/// The default port.
pub fn port() -> (r: u16)
    ensures
        r == 80,
{
    80
}

/// The default project root, below the working directory.
pub fn repo_directory() -> (r: String)
    ensures
        r@ == "repos"@,
{
    "repos".to_owned()
}

/// The default site name.
pub fn site_name() -> (r: String)
    ensures
        r@ == "mygit"@,
{
    "mygit".to_owned()
}

/// The default export-marker file name: a repository is published exactly
/// when its metadata directory holds a file of this name.
pub fn export_ok() -> (r: String)
    ensures
        r@ == "git-daemon-export-ok"@,
{
    "git-daemon-export-ok".to_owned()
}

/// The default page size of the commit log.
pub fn log_per_page() -> (r: usize)
    ensures
        r == 100,
{
    100
}

impl Default for Config {
    /// The configuration used when no configuration file is present.
    fn default() -> (r: Config)
        ensures
            r.port == 80,
            r.projectroot@ == "repos"@,
            r.emoji_favicon@ == Seq::<char>::empty(),
            r.site_name@ == "mygit"@,
            r.export_ok@ == "git-daemon-export-ok"@,
            r.clone_base@ == Seq::<char>::empty(),
            r.log_per_page == 100,
    {
        Config {
            port: port(),
            projectroot: repo_directory(),
            emoji_favicon: String::new(),
            site_name: site_name(),
            export_ok: export_ok(),
            clone_base: String::new(),
            log_per_page: log_per_page(),
        }
    }
}

/// Permission strings for the file modes git stores in tree entries.
/// Git only records this fixed handful of modes, so each one is listed.
pub fn unix_perms(m: i32) -> (r: &'static str)
    requires
        m == 0o040000 || m == 0o100755 || m == 0o100644 || m == 0o120000 || m == 0o160000,
    ensures
        m == 0o040000 ==> r@ == "drwxr-xr-x"@,
        m == 0o100755 ==> r@ == "-rwxr-xr-x"@,
        m == 0o100644 ==> r@ == "-rw-r--r--"@,
        m == 0o120000 ==> r@ == "lrwxrwxrwx"@,
        m == 0o160000 ==> r@ == "m---------"@,
{
    if m == 0o040000 {
        "drwxr-xr-x"
    } else if m == 0o100755 {
        "-rwxr-xr-x"
    } else if m == 0o100644 {
        "-rw-r--r--"
    } else if m == 0o120000 {
        "lrwxrwxrwx"
    } else {
        "m---------"
    }
}

} // verus!
