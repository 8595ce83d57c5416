//! The choice of the user's home and configuration directories.
//!
//! Paths are handled as the values of the environment variables that name them: bytes
//! on Unix and macOS, UTF-16 units on Windows. On Unix the home directory is `$HOME`;
//! the configuration directory is `$XDG_CONFIG_HOME` on Linux, falling back to
//! `$HOME/.config`, and `$HOME/Library/Application Support` on macOS. On Windows the home
//! directory is `%USERPROFILE%`, falling back to `%HOMEDRIVE%%HOMEPATH%`, and the
//! configuration directory is `%APPDATA%`.
use vstd::prelude::*;

verus! {

/// The path separator, `/`.
pub const SEPARATOR: u8 = 0x2f;

/// The view of an optional byte string.
pub open spec fn bytes_option_view(o: Option<Vec<u8>>) -> Option<Seq<u8>> {
    match o {
        Some(v) => Some(v@),
        None => None,
    }
}

/// The home directory that the value of `$HOME` gives: the value itself when it is set
/// and not empty, else none.
pub open spec fn home_dir_spec(home: Option<Seq<u8>>) -> Option<Seq<u8>> {
    match home {
        Some(h) => if h.len() > 0 {
            Some(h)
        } else {
            None
        },
        None => None,
    }
}

/// Whether a Unix path is absolute: it starts with `/`.
pub open spec fn is_absolute(p: Seq<u8>) -> bool {
    p.len() > 0 && p[0] == SEPARATOR
}

/// The bytes of `.config`.
pub open spec fn dot_config() -> Seq<u8> {
    seq![0x2eu8, 0x63u8, 0x6fu8, 0x6eu8, 0x66u8, 0x69u8, 0x67u8]
}

/// The bytes of `Library`.
pub open spec fn library() -> Seq<u8> {
    seq![0x4cu8, 0x69u8, 0x62u8, 0x72u8, 0x61u8, 0x72u8, 0x79u8]
}

/// The bytes of `Application Support`.
pub open spec fn application_support() -> Seq<u8> {
    seq![
        0x41u8, 0x70u8, 0x70u8, 0x6cu8, 0x69u8, 0x63u8, 0x61u8, 0x74u8, 0x69u8, 0x6fu8, 0x6eu8,
        0x20u8, 0x53u8, 0x75u8, 0x70u8, 0x70u8, 0x6fu8, 0x72u8, 0x74u8,
    ]
}

/// `base` joined with the relative component `comp`, as `Path::join` does it on Unix:
/// a separator is put between them unless `base` is empty or already ends with one.
pub open spec fn join_spec(base: Seq<u8>, comp: Seq<u8>) -> Seq<u8> {
    if base.len() > 0 && base.last() != SEPARATOR {
        base + seq![SEPARATOR] + comp
    } else {
        base + comp
    }
}

/// The configuration directory that the values of `$XDG_CONFIG_HOME` and `$HOME` give:
/// `$XDG_CONFIG_HOME` when it is set, not empty and absolute, else `.config` in the home
/// directory, else none.
pub open spec fn config_dir_spec(xdg_config_home: Option<Seq<u8>>, home: Option<Seq<u8>>) -> Option<
    Seq<u8>,
> {
    match xdg_config_home {
        Some(x) if x.len() > 0 && is_absolute(x) => Some(x),
        _ => match home_dir_spec(home) {
            Some(h) => Some(join_spec(h, dot_config())),
            None => None,
        },
    }
}

/// The user's home directory, given the value of `$HOME`.
pub fn home_dir_from(home: Option<Vec<u8>>) -> (r: Option<Vec<u8>>)
    ensures
        bytes_option_view(r) == home_dir_spec(bytes_option_view(home)),
{
    match home {
        Some(h) => if h.len() > 0 {
            Some(h)
        } else {
            None
        },
        None => None,
    }
}

/// The bytes of `.config`.
fn dot_config_bytes() -> (v: Vec<u8>)
    ensures
        v@ == dot_config(),
{
    let v: Vec<u8> = vec![0x2eu8, 0x63u8, 0x6fu8, 0x6eu8, 0x66u8, 0x69u8, 0x67u8];
    assert(v@ =~= dot_config());
    v
}

/// The bytes of `Library`.
fn library_bytes() -> (v: Vec<u8>)
    ensures
        v@ == library(),
{
    let v: Vec<u8> = vec![0x4cu8, 0x69u8, 0x62u8, 0x72u8, 0x61u8, 0x72u8, 0x79u8];
    assert(v@ =~= library());
    v
}

/// The bytes of `Application Support`.
fn application_support_bytes() -> (v: Vec<u8>)
    ensures
        v@ == application_support(),
{
    let v: Vec<u8> = vec![
        0x41u8, 0x70u8, 0x70u8, 0x6cu8, 0x69u8, 0x63u8, 0x61u8, 0x74u8, 0x69u8, 0x6fu8, 0x6eu8,
        0x20u8, 0x53u8, 0x75u8, 0x70u8, 0x70u8, 0x6fu8, 0x72u8, 0x74u8,
    ];
    assert(v@ =~= application_support());
    v
}

/// `base` with the relative component `comp` joined to it.
pub fn join_component(base: Vec<u8>, comp: &Vec<u8>) -> (r: Vec<u8>)
    ensures
        r@ == join_spec(base@, comp@),
{
    let mut p = base;
    if p.len() > 0 && p[p.len() - 1] != SEPARATOR {
        p.push(SEPARATOR);
    }
    let ghost prefix = p@;
    let mut i: usize = 0;
    while i < comp.len()
        invariant
            i <= comp@.len(),
            p@ == prefix + comp@.subrange(0, i as int),
        decreases comp@.len() - i,
    {
        p.push(comp[i]);
        assert(prefix + comp@.subrange(0, i + 1) =~= (prefix + comp@.subrange(0, i as int)).push(
            comp@[i as int],
        ));
        i = i + 1;
    }
    assert(comp@.subrange(0, comp@.len() as int) =~= comp@);
    assert(base@ + seq![SEPARATOR] + comp@ =~= base@.push(SEPARATOR) + comp@);
    p
}

/// The configuration directory, given the values of `$XDG_CONFIG_HOME` and `$HOME`.
/// A relative or empty `$XDG_CONFIG_HOME` is ignored.
pub fn config_dir_from(xdg_config_home: Option<Vec<u8>>, home: Option<Vec<u8>>) -> (r: Option<
    Vec<u8>,
>)
    ensures
        bytes_option_view(r) == config_dir_spec(
            bytes_option_view(xdg_config_home),
            bytes_option_view(home),
        ),
{
    if let Some(x) = xdg_config_home {
        if x.len() > 0 && x[0] == SEPARATOR {
            return Some(x);
        }
    }
    match home_dir_from(home) {
        Some(h) => Some(join_component(h, &dot_config_bytes())),
        None => None,
    }
}

/// The macOS configuration directory that the value of `$HOME` gives:
/// `Library/Application Support` in the home directory, else none.
pub open spec fn macos_config_dir_spec(home: Option<Seq<u8>>) -> Option<Seq<u8>> {
    match home_dir_spec(home) {
        Some(h) => Some(join_spec(join_spec(h, library()), application_support())),
        None => None,
    }
}

/// The configuration directory on macOS, given the value of `$HOME`.
pub fn macos_config_dir_from(home: Option<Vec<u8>>) -> (r: Option<Vec<u8>>)
    ensures
        bytes_option_view(r) == macos_config_dir_spec(bytes_option_view(home)),
{
    match home_dir_from(home) {
        Some(h) => Some(join_component(join_component(h, &library_bytes()), &application_support_bytes())),
        None => None,
    }
}

/// The view of an optional wide string.
pub open spec fn wide_option_view(o: Option<Vec<u16>>) -> Option<Seq<u16>> {
    match o {
        Some(v) => Some(v@),
        None => None,
    }
}

/// The Windows home directory that `%USERPROFILE%`, `%HOMEDRIVE%` and `%HOMEPATH%` give:
/// `%USERPROFILE%` when it is set and not empty, else `%HOMEDRIVE%` followed by
/// `%HOMEPATH%` when both are set, else none.
pub open spec fn windows_home_dir_spec(
    user_profile: Option<Seq<u16>>,
    home_drive: Option<Seq<u16>>,
    home_path: Option<Seq<u16>>,
) -> Option<Seq<u16>> {
    match user_profile {
        Some(u) if u.len() > 0 => Some(u),
        _ => match (home_drive, home_path) {
            (Some(d), Some(p)) => Some(d + p),
            _ => None,
        },
    }
}

/// The user's home directory on Windows, given the values of `%USERPROFILE%`,
/// `%HOMEDRIVE%` and `%HOMEPATH%` as wide strings.
pub fn windows_home_dir_from(
    user_profile: Option<Vec<u16>>,
    home_drive: Option<Vec<u16>>,
    home_path: Option<Vec<u16>>,
) -> (r: Option<Vec<u16>>)
    ensures
        wide_option_view(r) == windows_home_dir_spec(
            wide_option_view(user_profile),
            wide_option_view(home_drive),
            wide_option_view(home_path),
        ),
{
    if let Some(u) = user_profile {
        if u.len() > 0 {
            return Some(u);
        }
    }
    match (home_drive, home_path) {
        (Some(d), Some(p)) => {
            let mut home = d;
            let mut tail = p;
            home.append(&mut tail);
            Some(home)
        },
        _ => None,
    }
}

/// The Windows configuration directory that `%APPDATA%` gives: the value itself when it
/// is set and not empty, else none.
pub open spec fn windows_config_dir_spec(app_data: Option<Seq<u16>>) -> Option<Seq<u16>> {
    match app_data {
        Some(a) if a.len() > 0 => Some(a),
        _ => None,
    }
}

/// The configuration directory on Windows, given the value of `%APPDATA%`.
pub fn windows_config_dir_from(app_data: Option<Vec<u16>>) -> (r: Option<Vec<u16>>)
    ensures
        wide_option_view(r) == windows_config_dir_spec(wide_option_view(app_data)),
{
    match app_data {
        Some(a) => if a.len() > 0 {
            Some(a)
        } else {
            None
        },
        None => None,
    }
}

/// The configuration directory is always absolute when the home directory is.
pub proof fn law_config_dir_absolute(xdg_config_home: Option<Seq<u8>>, home: Option<Seq<u8>>)
    requires
        home matches Some(h) ==> is_absolute(h),
    ensures
        config_dir_spec(xdg_config_home, home) matches Some(c) ==> is_absolute(c),
{
}

/// When `$XDG_CONFIG_HOME` is not used, the configuration directory is `.config` within
/// the home directory: it starts with the home directory and ends with `.config`, and
/// there is none exactly when there is no home directory.
pub proof fn law_config_dir_falls_back_to_home(xdg_config_home: Option<Seq<u8>>, home: Option<Seq<u8>>)
    requires
        !(xdg_config_home matches Some(x) && x.len() > 0 && is_absolute(x)),
    ensures
        config_dir_spec(xdg_config_home, home) is None <==> home_dir_spec(home) is None,
        config_dir_spec(xdg_config_home, home) matches Some(c) ==> {
            let h = home_dir_spec(home).unwrap();
            &&& c.subrange(0, h.len() as int) == h
            &&& c.subrange(c.len() - dot_config().len(), c.len() as int) == dot_config()
        },
{
    if let Some(c) = config_dir_spec(xdg_config_home, home) {
        let h = home_dir_spec(home).unwrap();
        assert(c.subrange(0, h.len() as int) =~= h);
        assert(c.subrange(c.len() - dot_config().len(), c.len() as int) =~= dot_config());
    }
}

/// The home directory is `$HOME` itself whenever it is set and not empty, and there is
/// none when it is unset or empty.
pub proof fn law_home_dir(home: Seq<u8>)
    ensures
        home.len() > 0 ==> home_dir_spec(Some(home)) == Some(home),
        home.len() == 0 ==> home_dir_spec(Some(home)) is None,
        home_dir_spec(None) is None,
{
}

/// A set, non-empty `$XDG_CONFIG_HOME` that starts with `/` is the configuration
/// directory as it is, whatever `$HOME` holds.
pub proof fn law_config_dir_uses_absolute_xdg(xdg_config_home: Seq<u8>, home: Option<Seq<u8>>)
    requires
        xdg_config_home.len() > 0,
        xdg_config_home[0] == 0x2fu8,
    ensures
        config_dir_spec(Some(xdg_config_home), home) == Some(xdg_config_home),
{
}

/// Otherwise the configuration directory is `$HOME/.config` for a set, non-empty `$HOME`
/// (with no second `/` when `$HOME` ends in one), and there is none without a home.
pub proof fn law_config_dir_fallback(xdg_config_home: Option<Seq<u8>>, home: Seq<u8>)
    requires
        !(xdg_config_home matches Some(x) && x.len() > 0 && x[0] == 0x2fu8),
    ensures
        home.len() > 0 && home.last() != 0x2fu8 ==> config_dir_spec(xdg_config_home, Some(home))
            == Some(home + seq![0x2fu8, 0x2eu8, 0x63u8, 0x6fu8, 0x6eu8, 0x66u8, 0x69u8, 0x67u8]),
        home.len() > 0 && home.last() == 0x2fu8 ==> config_dir_spec(xdg_config_home, Some(home))
            == Some(home + seq![0x2eu8, 0x63u8, 0x6fu8, 0x6eu8, 0x66u8, 0x69u8, 0x67u8]),
        home.len() == 0 ==> config_dir_spec(xdg_config_home, Some(home)) is None,
        config_dir_spec(xdg_config_home, None) is None,
{
    assert(home + seq![SEPARATOR] + dot_config() =~= home + seq![
        0x2fu8,
        0x2eu8,
        0x63u8,
        0x6fu8,
        0x6eu8,
        0x66u8,
        0x69u8,
        0x67u8,
    ]);
}

/// On macOS the configuration directory is `$HOME/Library/Application Support` for a
/// set, non-empty `$HOME` that does not end in `/`, and there is none without a home.
pub proof fn law_macos_config_dir(home: Seq<u8>)
    ensures
        home.len() > 0 && home.last() != 0x2fu8 ==> macos_config_dir_spec(Some(home)) == Some(
            home + seq![0x2fu8, 0x4cu8, 0x69u8, 0x62u8, 0x72u8, 0x61u8, 0x72u8, 0x79u8, 0x2fu8]
                + seq![
                0x41u8, 0x70u8, 0x70u8, 0x6cu8, 0x69u8, 0x63u8, 0x61u8, 0x74u8, 0x69u8, 0x6fu8,
                0x6eu8, 0x20u8, 0x53u8, 0x75u8, 0x70u8, 0x70u8, 0x6fu8, 0x72u8, 0x74u8,
            ],
        ),
        home.len() == 0 ==> macos_config_dir_spec(Some(home)) is None,
        macos_config_dir_spec(None) is None,
{
    if home.len() > 0 && home.last() != 0x2fu8 {
        let lib = home + seq![SEPARATOR] + library();
        assert(lib.last() == 0x79u8);
        assert(lib + seq![SEPARATOR] + application_support() =~= home + seq![
            0x2fu8,
            0x4cu8,
            0x69u8,
            0x62u8,
            0x72u8,
            0x61u8,
            0x72u8,
            0x79u8,
            0x2fu8,
        ] + seq![
            0x41u8, 0x70u8, 0x70u8, 0x6cu8, 0x69u8, 0x63u8, 0x61u8, 0x74u8, 0x69u8, 0x6fu8,
            0x6eu8, 0x20u8, 0x53u8, 0x75u8, 0x70u8, 0x70u8, 0x6fu8, 0x72u8, 0x74u8,
        ]);
    }
}

/// Joining a component puts exactly one `/` between a non-empty base and it.
pub proof fn law_join(base: Seq<u8>, comp: Seq<u8>)
    ensures
        base.len() > 0 && base.last() != 0x2fu8 ==> join_spec(base, comp) == base + seq![0x2fu8]
            + comp,
        (base.len() == 0 || base.last() == 0x2fu8) ==> join_spec(base, comp) == base + comp,
{
}

/// On Windows the home directory is a set, non-empty `%USERPROFILE%`, else
/// `%HOMEDRIVE%` followed by `%HOMEPATH%` when both are set, else none; the configuration
/// directory is a set, non-empty `%APPDATA%`, else none.
pub proof fn law_windows_dirs(
    user_profile: Option<Seq<u16>>,
    home_drive: Option<Seq<u16>>,
    home_path: Option<Seq<u16>>,
    app_data: Seq<u16>,
)
    ensures
        user_profile matches Some(u) && u.len() > 0 ==> windows_home_dir_spec(
            user_profile,
            home_drive,
            home_path,
        ) == user_profile,
        !(user_profile matches Some(u) && u.len() > 0) ==> windows_home_dir_spec(
            user_profile,
            home_drive,
            home_path,
        ) == (if home_drive is Some && home_path is Some {
            Some(home_drive.unwrap() + home_path.unwrap())
        } else {
            None
        }),
        app_data.len() > 0 ==> windows_config_dir_spec(Some(app_data)) == Some(app_data),
        app_data.len() == 0 ==> windows_config_dir_spec(Some(app_data)) is None,
        windows_config_dir_spec(None) is None,
{
}

} // verus!
