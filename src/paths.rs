use vstd::prelude::*;

verus! {

/// The directory name under the platform's data directory.
pub const APPLICATION_NAME: &'static str = "omni";

/// The platforms whose conventions for application data are known.
#[derive(Clone, Copy, Debug, PartialEq, Eq, Structural)]
pub enum Platform {
    Windows,
    MacOs,
    /// Any other Unix.
    Unix,
}

/// The environment variables that locate the data directory, as they were
/// found (`None` when unset). `T` is the type of a variable's value.
pub struct DataDirEnv<T> {
    pub local_appdata: Option<T>,
    pub user_profile: Option<T>,
    pub home: Option<T>,
    pub xdg_data_home: Option<T>,
}

/// Why no data directory could be located.
#[derive(Clone, Copy, Debug, PartialEq, Eq, Structural)]
pub enum PathError {
    /// Windows: neither LOCALAPPDATA nor USERPROFILE is set.
    WindowsDirsUnset,
    /// macOS: HOME is not set.
    HomeUnset,
    /// Unix: neither XDG_DATA_HOME nor HOME is set.
    XdgDirsUnset,
}

/// A path: a base taken from the environment, followed by relative
/// components.
pub struct AppPath<T> {
    pub base: T,
    pub components: Vec<String>,
}

impl<T> AppPath<T> {
    pub open spec fn parts(&self) -> Seq<Seq<char>> {
        self.components@.map_values(|c: String| c@)
    }

    /// Whether this path is `base` followed by `parts`.
    pub open spec fn equals_path(&self, base: T, parts: Seq<Seq<char>>) -> bool {
        self.base == base && self.parts() == parts
    }

    /// Appends one component.
    pub fn join(self, part: &str) -> (r: AppPath<T>)
        ensures
            r.base == self.base,
            r.parts() == self.parts().push(part@),
    {
        let AppPath { base, mut components } = self;
        let ghost before = components@;
        components.push(part.to_owned());
        let r = AppPath { base, components };
        assert(r.parts() =~= before.map_values(|c: String| c@).push(part@));
        r
    }
}

impl PathError {
    /// The error reported for a platform when its variables are unset.
    pub open spec fn for_platform(platform: Platform) -> PathError {
        match platform {
            Platform::Windows => PathError::WindowsDirsUnset,
            Platform::MacOs => PathError::HomeUnset,
            Platform::Unix => PathError::XdgDirsUnset,
        }
    }
}

/// The platform's base directory for application data: the variable that is
/// used, and the components that follow it.
pub open spec fn data_base<T>(platform: Platform, env: DataDirEnv<T>) -> Option<(T, Seq<Seq<char>>)> {
    match platform {
        Platform::Windows => match (env.local_appdata, env.user_profile) {
            (Some(l), _) => Some((l, seq![])),
            (None, Some(u)) => Some((u, seq!["AppData"@, "Local"@])),
            (None, None) => None,
        },
        Platform::MacOs => match env.home {
            Some(h) => Some((h, seq!["Library"@, "Application Support"@])),
            None => None,
        },
        Platform::Unix => match (env.xdg_data_home, env.home) {
            (Some(x), _) => Some((x, seq![])),
            (None, Some(h)) => Some((h, seq![".local"@, "share"@])),
            (None, None) => None,
        },
    }
}

/// Whether `r` is the located base followed by `suffix`, or the platform's
/// error when none is located.
pub open spec fn located<T>(
    r: Result<AppPath<T>, PathError>,
    platform: Platform,
    env: DataDirEnv<T>,
    suffix: Seq<Seq<char>>,
) -> bool {
    match data_base(platform, env) {
        Some((b, ps)) => r matches Ok(p) && p.equals_path(b, ps + suffix),
        None => r == Err::<AppPath<T>, PathError>(PathError::for_platform(platform)),
    }
}

fn from_base<T>(base: T) -> (r: AppPath<T>)
    ensures
        r.equals_path(base, seq![]),
{
    let r = AppPath { base, components: Vec::new() };
    assert(r.parts() =~= seq![]);
    r
}

/// Locates the platform's base directory for application data.
pub fn platform_app_data_base<T>(platform: Platform, env: DataDirEnv<T>) -> (r: Result<
    AppPath<T>,
    PathError,
>)
    ensures
        located(r, platform, env, seq![]),
{
    let ghost e = env;
    let DataDirEnv { local_appdata, user_profile, home, xdg_data_home } = env;
    let r = match platform {
        Platform::Windows => {
            if let Some(l) = local_appdata {
                Ok(from_base(l))
            } else if let Some(u) = user_profile {
                Ok(from_base(u).join("AppData").join("Local"))
            } else {
                Err(PathError::WindowsDirsUnset)
            }
        },
        Platform::MacOs => {
            if let Some(h) = home {
                Ok(from_base(h).join("Library").join("Application Support"))
            } else {
                Err(PathError::HomeUnset)
            }
        },
        Platform::Unix => {
            if let Some(x) = xdg_data_home {
                Ok(from_base(x))
            } else if let Some(h) = home {
                Ok(from_base(h).join(".local").join("share"))
            } else {
                Err(PathError::XdgDirsUnset)
            }
        },
    };
    proof {
        if let Some((b, ps)) = data_base(platform, e) {
            assert(ps + seq![] =~= ps);
            assert(seq![].push("AppData"@).push("Local"@) =~= seq!["AppData"@, "Local"@]);
            assert(seq![].push("Library"@).push("Application Support"@) =~= seq![
                "Library"@,
                "Application Support"@,
            ]);
            assert(seq![].push(".local"@).push("share"@) =~= seq![".local"@, "share"@]);
        }
    }
    r
}

/// This application's data directory: the platform's base followed by the
/// application's name.
pub fn app_data_dir<T>(platform: Platform, env: DataDirEnv<T>) -> (r: Result<AppPath<T>, PathError>)
    ensures
        located(r, platform, env, seq![APPLICATION_NAME@]),
{
    let ghost e = env;
    match platform_app_data_base(platform, env) {
        Ok(base) => {
            let r = base.join(APPLICATION_NAME);
            proof {
                let (b, ps) = data_base(platform, e)->Some_0;
                assert((ps + seq![]).push(APPLICATION_NAME@) =~= ps + seq![APPLICATION_NAME@]);
            }
            Ok(r)
        },
        Err(err) => Err(err),
    }
}

} // verus!
