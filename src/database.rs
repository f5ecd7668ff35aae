use vstd::prelude::*;

use crate::paths::{app_data_dir, located, AppPath, DataDirEnv, PathError, Platform, APPLICATION_NAME};
use crate::ports::{SafeDatabase, UnsafeDatabase};

verus! {

/// Name of the file that holds the safe snapshot.
pub const SAFE_DATABASE_FILE: &'static str = "db_safe.json";

/// Name of the file that holds the unsafe snapshot.
pub const UNSAFE_DATABASE_FILE: &'static str = "db_unsafe.json";

/// Derives the plain-text snapshot from the protected one. The unsafe
/// snapshot holds a subset of the safe one; with no fields, that subset is
/// empty.
pub fn safe_to_unsafe_database(safe: &SafeDatabase) -> (r: UnsafeDatabase)
    ensures
        r == (UnsafeDatabase {}),
{
    UnsafeDatabase {}
}

/// Development storage: both snapshots as plain files under the
/// application's data directory.
#[derive(Clone, Copy, Debug)]
pub struct DatabaseDevUnsecureAdapter {}

impl Default for DatabaseDevUnsecureAdapter {
    fn default() -> (r: Self)
        ensures
            r == (DatabaseDevUnsecureAdapter {}),
    {
        DatabaseDevUnsecureAdapter {}
    }
}

/// The components under the platform's base directory where the
/// development storage lives.
pub open spec fn db_dir_parts() -> Seq<Seq<char>> {
    seq![APPLICATION_NAME@, "_dev"@, "unsecure"@]
}

impl DatabaseDevUnsecureAdapter {
    /// The directory of the development storage.
    pub fn get_db_base_path<T>(platform: Platform, env: DataDirEnv<T>) -> (r: Result<
        AppPath<T>,
        PathError,
    >)
        ensures
            located(r, platform, env, db_dir_parts()),
    {
        let ghost e = env;
        match app_data_dir(platform, env) {
            Ok(dir) => {
                let r = dir.join("_dev").join("unsecure");
                proof {
                    let (b, ps) = crate::paths::data_base(platform, e)->Some_0;
                    assert((ps + seq![APPLICATION_NAME@]).push("_dev"@).push("unsecure"@)
                        =~= ps + db_dir_parts());
                }
                Ok(r)
            },
            Err(err) => Err(err),
        }
    }

    /// The file of the safe snapshot.
    pub fn safe_database_path<T>(platform: Platform, env: DataDirEnv<T>) -> (r: Result<
        AppPath<T>,
        PathError,
    >)
        ensures
            located(r, platform, env, db_dir_parts().push(SAFE_DATABASE_FILE@)),
    {
        Self::database_file(platform, env, SAFE_DATABASE_FILE)
    }

    /// The file of the unsafe snapshot.
    pub fn unsafe_database_path<T>(platform: Platform, env: DataDirEnv<T>) -> (r: Result<
        AppPath<T>,
        PathError,
    >)
        ensures
            located(r, platform, env, db_dir_parts().push(UNSAFE_DATABASE_FILE@)),
    {
        Self::database_file(platform, env, UNSAFE_DATABASE_FILE)
    }

    fn database_file<T>(platform: Platform, env: DataDirEnv<T>, file: &str) -> (r: Result<
        AppPath<T>,
        PathError,
    >)
        ensures
            located(r, platform, env, db_dir_parts().push(file@)),
    {
        let ghost e = env;
        match Self::get_db_base_path(platform, env) {
            Ok(dir) => {
                let r = dir.join(file);
                proof {
                    let (b, ps) = crate::paths::data_base(platform, e)->Some_0;
                    assert((ps + db_dir_parts()).push(file@) =~= ps + db_dir_parts().push(file@));
                }
                Ok(r)
            },
            Err(err) => Err(err),
        }
    }
}

} // verus!
