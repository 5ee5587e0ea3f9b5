use vstd::prelude::*;
use vstd::string::{StrSliceExecFns, StringExecFns};

use crate::text::text_of;

verus! {

/// The family of operating systems that the program runs on.
#[derive(Clone, Copy, Debug, PartialEq, Eq, Structural)]
pub enum Platform {
    /// Windows: paths are separated by `\`, and `/` is understood as well.
    Windows,
    /// Linux, the BSDs and macOS: paths are separated by `/`.
    Unix,
    /// Anything else. It has no known place for downloads.
    Other,
}

/// What the resolver is told about the machine: the platform, and the values
/// of the environment variables `USERPROFILE`, `XDG_DOWNLOAD_DIR` and `HOME`,
/// each `None` where the variable is not set.
#[derive(Clone, Debug, PartialEq, Eq)]
pub struct Host {
    pub platform: Platform,
    pub userprofile: Option<String>,
    pub xdg_download_dir: Option<String>,
    pub home: Option<String>,
}

/// The mathematical value of a [`Host`].
pub struct HostModel {
    pub platform: Platform,
    pub userprofile: Option<Seq<char>>,
    pub xdg_download_dir: Option<Seq<char>>,
    pub home: Option<Seq<char>>,
}

impl View for Host {
    type V = HostModel;

    open spec fn view(&self) -> HostModel {
        HostModel {
            platform: self.platform,
            userprofile: text_of(self.userprofile),
            xdg_download_dir: text_of(self.xdg_download_dir),
            home: text_of(self.home),
        }
    }
}

/// The name of the variable that holds the user's profile directory.
pub open spec fn userprofile_name() -> Seq<char> {
    "USERPROFILE"@
}

/// The name of the variable that holds the download directory itself.
pub open spec fn xdg_download_dir_name() -> Seq<char> {
    "XDG_DOWNLOAD_DIR"@
}

/// The name of the variable that holds the user's home directory.
pub open spec fn home_name() -> Seq<char> {
    "HOME"@
}

impl Host {
    /// Fills a host in by asking `lookup` for each of the three variables by
    /// its name; `lookup` answers `None` for a variable that is not set.
    pub fn read<F: Fn(&str) -> Option<String>>(platform: Platform, lookup: F) -> (host: Host)
        requires
            forall|name: &str|
                name@ == userprofile_name() || name@ == xdg_download_dir_name() || name@
                    == home_name() ==> #[trigger] lookup.requires((name,)),
        ensures
            host.platform == platform,
            exists|name: &str|
                name@ == userprofile_name() && #[trigger] lookup.ensures(
                    (name,),
                    host.userprofile,
                ),
            exists|name: &str|
                name@ == xdg_download_dir_name() && #[trigger] lookup.ensures(
                    (name,),
                    host.xdg_download_dir,
                ),
            exists|name: &str|
                name@ == home_name() && #[trigger] lookup.ensures((name,), host.home),
    {
        let userprofile = lookup("USERPROFILE");
        let xdg_download_dir = lookup("XDG_DOWNLOAD_DIR");
        let home = lookup("HOME");
        assert("USERPROFILE"@ == userprofile_name() && lookup.ensures(
            ("USERPROFILE",),
            userprofile,
        ));
        assert("XDG_DOWNLOAD_DIR"@ == xdg_download_dir_name() && lookup.ensures(
            ("XDG_DOWNLOAD_DIR",),
            xdg_download_dir,
        ));
        assert("HOME"@ == home_name() && lookup.ensures(("HOME",), home));
        Host { platform, userprofile, xdg_download_dir, home }
    }
}

/// The character that the platform puts between the parts of a path.
pub open spec fn separator(platform: Platform) -> char {
    if platform is Windows {
        '\\'
    } else {
        '/'
    }
}

/// Whether the platform reads `c` as a break between the parts of a path.
pub open spec fn is_separator(platform: Platform, c: char) -> bool {
    c == '/' || (platform is Windows && c == '\\')
}

/// The path of the entry `name` inside the directory `base`: the two are put
/// together with one separator between them, which is left out where `base`
/// is empty or already ends in one.
pub open spec fn joined(platform: Platform, base: Seq<char>, name: Seq<char>) -> Seq<char> {
    if base.len() == 0 || is_separator(platform, base.last()) {
        base + name
    } else {
        base + seq![separator(platform)] + name
    }
}

/// The name of the directory that holds a user's downloads.
pub open spec fn downloads_name() -> Seq<char> {
    "Downloads"@
}

/// The file name that the tool fills in by itself: the title of the item, a
/// dot, and the extension of its container.
pub open spec fn template_name() -> Seq<char> {
    "%(title)s.%(ext)s"@
}

/// Where downloads go on a machine when the caller names no directory.
///
/// On Windows it is `Downloads` under the user's profile. On a Unix platform
/// `XDG_DOWNLOAD_DIR` is taken as it stands where it is set, and otherwise it
/// is `Downloads` under the home directory. Elsewhere there is none.
pub open spec fn download_dir_of(host: HostModel) -> Option<Seq<char>> {
    match host.platform {
        Platform::Windows => match host.userprofile {
            Some(profile) => Some(joined(Platform::Windows, profile, downloads_name())),
            None => None,
        },
        Platform::Unix => match host.xdg_download_dir {
            Some(dir) => Some(dir),
            None => match host.home {
                Some(home) => Some(joined(Platform::Unix, home, downloads_name())),
                None => None,
            },
        },
        Platform::Other => None,
    }
}

/// The output template for downloads into `dir`.
pub open spec fn template_in(platform: Platform, dir: Seq<char>) -> Seq<char> {
    joined(platform, dir, template_name())
}

/// Whether `base` is empty or ends in a separator of the platform.
fn ends_in_separator(platform: Platform, base: &str) -> (r: bool)
    ensures
        r == (base@.len() == 0 || is_separator(platform, base@.last())),
{
    let n: usize = base.unicode_len();
    if n == 0 {
        true
    } else {
        let c = base.get_char(n - 1);
        c == '/' || (matches!(platform, Platform::Windows) && c == '\\')
    }
}

/// The path of the entry `name` inside the directory `base`.
fn join(platform: Platform, base: &str, name: &str) -> (r: String)
    ensures
        r@ == joined(platform, base@, name@),
{
    let mut path = String::from_str(base);
    if !ends_in_separator(platform, base) {
        proof {
            reveal_strlit("\\");
            reveal_strlit("/");
            assert("\\"@ =~= seq!['\\']);
            assert("/"@ =~= seq!['/']);
        }
        match platform {
            Platform::Windows => path.append("\\"),
            _ => path.append("/"),
        }
    }
    path.append(name);
    path
}

/// Where downloads go on this machine when the caller names no directory, or
/// `None` where the machine does not tell. Nothing is looked up on disk: the
/// directory need not exist.
pub fn get_download_dir(host: &Host) -> (r: Option<String>)
    ensures
        text_of(r) == download_dir_of(host@),
{
    match host.platform {
        Platform::Windows => match &host.userprofile {
            Some(profile) => Some(join(Platform::Windows, profile.as_str(), "Downloads")),
            None => None,
        },
        Platform::Unix => match &host.xdg_download_dir {
            Some(dir) => Some(dir.clone()),
            None => match &host.home {
                Some(home) => Some(join(Platform::Unix, home.as_str(), "Downloads")),
                None => None,
            },
        },
        Platform::Other => None,
    }
}

/// The output template for downloads into `dir`: the path, inside `dir`, of a
/// file whose name the tool fills in from the title and the extension.
pub fn output_template(platform: Platform, dir: &str) -> (r: String)
    ensures
        r@ == template_in(platform, dir@),
{
    join(platform, dir, "%(title)s.%(ext)s")
}

/// On a Unix platform a download directory that is set wins over the home
/// directory, whatever the latter is.
pub proof fn lemma_xdg_wins(host: HostModel)
    requires
        host.platform is Unix,
        host.xdg_download_dir is Some,
    ensures
        download_dir_of(host) == host.xdg_download_dir,
{
}

/// A profile directory that does not end in a separator gets `\Downloads`
/// appended on Windows, and a home directory `/Downloads` on Unix.
pub proof fn lemma_downloads_appended(host: HostModel, base: Seq<char>)
    requires
        base.len() > 0,
        !is_separator(host.platform, base.last()),
        (host.platform is Windows && host.userprofile == Some(base)) || (host.platform is Unix
            && host.xdg_download_dir is None && host.home == Some(base)),
    ensures
        download_dir_of(host) == Some(
            base + seq![separator(host.platform)] + downloads_name(),
        ),
{
}

} // verus!
