//! Keeping the bundled download tool apart from one that is installed on the
//! system: directories of its own, and the environment that points it there.
//!
//! Making the directories is the caller's work. What is decided here is the
//! environment that the tool is started with.

use crate::text::same_text;
use vstd::prelude::*;

verus! {

/// Environment variables in the order in which they were first set. A name
/// occurs once: setting it again replaces its value.
#[derive(Debug)]
pub struct EnvVars {
    entries: Vec<(String, String)>,
}

/// The index of the first entry under `name`, or the number of entries.
pub open spec fn env_position(entries: Seq<(Seq<char>, Seq<char>)>, name: Seq<char>) -> int
    decreases entries.len(),
{
    if entries.len() == 0 || entries[0].0 == name {
        0
    } else {
        1 + env_position(entries.drop_first(), name)
    }
}

/// The entries after `name` is set to `value`: replaced in place where the
/// name is there, added at the end where not.
pub open spec fn env_set(
    entries: Seq<(Seq<char>, Seq<char>)>,
    name: Seq<char>,
    value: Seq<char>,
) -> Seq<(Seq<char>, Seq<char>)> {
    if env_position(entries, name) < entries.len() {
        entries.update(env_position(entries, name), (name, value))
    } else {
        entries.push((name, value))
    }
}

/// The entries after every entry of `more` is set, in the order of `more`.
pub open spec fn env_set_all(
    entries: Seq<(Seq<char>, Seq<char>)>,
    more: Seq<(Seq<char>, Seq<char>)>,
) -> Seq<(Seq<char>, Seq<char>)>
    decreases more.len(),
{
    if more.len() == 0 {
        entries
    } else {
        env_set(env_set_all(entries, more.drop_last()), more.last().0, more.last().1)
    }
}

/// No name occurs twice among the entries.
pub open spec fn has_unique_names(entries: Seq<(Seq<char>, Seq<char>)>) -> bool {
    forall|i: int, j: int|
        0 <= i < j < entries.len() ==> (#[trigger] entries[i]).0 != (#[trigger] entries[j]).0
}

/// Setting a name leaves every name there once.
pub proof fn env_set_keeps_names_unique(
    entries: Seq<(Seq<char>, Seq<char>)>,
    name: Seq<char>,
    value: Seq<char>,
)
    requires
        has_unique_names(entries),
    ensures
        has_unique_names(env_set(entries, name, value)),
{
    env_position_bounds(entries, name);
    let at = env_position(entries, name);
    let after = env_set(entries, name, value);
    assert forall|i: int, j: int| 0 <= i < j < after.len() implies (#[trigger] after[i]).0 != (
    #[trigger] after[j]).0 by {
        if at < entries.len() {
            assert(after[i].0 == entries[i].0);
            assert(after[j].0 == entries[j].0);
        } else if j == entries.len() {
            assert(after[i] == entries[i]);
        } else {
            assert(after[i] == entries[i]);
            assert(after[j] == entries[j]);
        }
    }
}

/// `env_position` is within the entries, names an entry under that name
/// where it is an index at all, and has no such entry before it.
pub proof fn env_position_bounds(entries: Seq<(Seq<char>, Seq<char>)>, name: Seq<char>)
    ensures
        0 <= env_position(entries, name) <= entries.len(),
        env_position(entries, name) < entries.len() ==> entries[env_position(entries, name)].0
            == name,
        forall|j: int| 0 <= j < env_position(entries, name) ==> (#[trigger] entries[j]).0 != name,
    decreases entries.len(),
{
    if entries.len() == 0 || entries[0].0 == name {
    } else {
        env_position_bounds(entries.drop_first(), name);
        let k = env_position(entries.drop_first(), name);
        assert forall|j: int| 0 <= j < 1 + k implies (#[trigger] entries[j]).0 != name by {
            if j > 0 {
                assert(entries.drop_first()[j - 1] == entries[j]);
            }
        }
    }
}

/// The environment that points the tool at its own directories on the given
/// operating system.
pub open spec fn isolation_env(
    config_dir: Seq<char>,
    cache_dir: Seq<char>,
    data_dir: Seq<char>,
    os: Seq<char>,
) -> Seq<(Seq<char>, Seq<char>)> {
    let base = env_set(
        env_set(
            env_set(Seq::empty(), "GYTMDL_CONFIG_DIR"@, config_dir),
            "GYTMDL_CACHE_DIR"@,
            cache_dir,
        ),
        "GYTMDL_DATA_DIR"@,
        data_dir,
    );
    let platform = if os == "windows"@ {
        env_set(env_set(base, "APPDATA"@, data_dir), "LOCALAPPDATA"@, cache_dir)
    } else if os == "macos"@ || os == "linux"@ {
        env_set(
            env_set(env_set(base, "XDG_CONFIG_HOME"@, config_dir), "XDG_CACHE_HOME"@, cache_dir),
            "XDG_DATA_HOME"@,
            data_dir,
        )
    } else {
        base
    };
    env_set(env_set(platform, "GYTMDL_NO_SYSTEM_CONFIG"@, "1"@), "GYTMDL_GUI_MODE"@, "1"@)
}

impl View for EnvVars {
    type V = Seq<(Seq<char>, Seq<char>)>;

    closed spec fn view(&self) -> Seq<(Seq<char>, Seq<char>)> {
        self.entries@.map_values(|e: (String, String)| (e.0@, e.1@))
    }
}

impl Clone for EnvVars {
    fn clone(&self) -> (r: Self)
        ensures
            r@ == self@,
    {
        proof {
            use_type_invariant(self);
        }
        let mut entries: Vec<(String, String)> = Vec::new();
        let mut i: usize = 0;
        while i < self.entries.len()
            invariant
                i <= self.entries.len(),
                entries@ == self.entries@.take(i as int),
            decreases self.entries.len() - i,
        {
            entries.push((self.entries[i].0.clone(), self.entries[i].1.clone()));
            assert(entries@ =~= self.entries@.take(i + 1));
            i += 1;
        }
        assert(self.entries@.take(self.entries@.len() as int) =~= self.entries@);
        EnvVars { entries }
    }
}

impl EnvVars {
    /// A name occurs once.
    #[verifier::type_invariant]
    spec fn is_a_map(self) -> bool {
        has_unique_names(self@)
    }

    /// No variables.
    pub fn new() -> (r: Self)
        ensures
            r@.len() == 0,
    {
        EnvVars { entries: Vec::new() }
    }

    /// The index of the entry under `name`.
    fn position(&self, name: &str) -> (r: Option<usize>)
        ensures
            match r {
                Some(i) => i == env_position(self@, name@) && i < self@.len(),
                None => env_position(self@, name@) == self@.len(),
            },
    {
        let mut i: usize = 0;
        while i < self.entries.len()
            invariant
                i <= self.entries.len(),
                forall|j: int| 0 <= j < i ==> (#[trigger] self@[j]).0 != name@,
            decreases self.entries.len() - i,
        {
            if same_text(self.entries[i].0.as_str(), name) {
                proof {
                    assert(self@[i as int].0 == name@);
                    env_position_bounds(self@, name@);
                }
                return Some(i);
            }
            i += 1;
        }
        proof {
            env_position_bounds(self@, name@);
        }
        None
    }

    /// Sets `name` to `value`.
    pub fn insert(&mut self, name: String, value: String)
        ensures
            final(self)@ == env_set(old(self)@, name@, value@),
            has_unique_names(final(self)@),
    {
        proof {
            use_type_invariant(&*self);
            env_set_keeps_names_unique(self@, name@, value@);
        }
        let found = self.position(name.as_str());
        let mut entries: Vec<(String, String)> = Vec::new();
        std::mem::swap(&mut entries, &mut self.entries);
        match found {
            Some(i) => {
                entries[i] = (name, value);
            },
            None => {
                entries.push((name, value));
            },
        }
        assert(entries@.map_values(|e: (String, String)| (e.0@, e.1@)) =~= env_set(
            old(self)@,
            name@,
            value@,
        ));
        self.entries = entries;
    }

    /// Sets `name` to `value`, both given as text.
    pub fn set(&mut self, name: &str, value: &str)
        ensures
            final(self)@ == env_set(old(self)@, name@, value@),
            has_unique_names(final(self)@),
    {
        self.insert(name.to_owned(), value.to_owned());
    }

    /// The value of `name`, where it is set.
    pub fn get(&self, name: &str) -> (r: Option<&String>)
        ensures
            match r {
                Some(v) => env_position(self@, name@) < self@.len() && v@
                    == self@[env_position(self@, name@)].1,
                None => env_position(self@, name@) == self@.len(),
            },
    {
        match self.position(name) {
            Some(i) => Some(&self.entries[i].1),
            None => None,
        }
    }

    /// Whether `name` is set.
    pub fn contains_key(&self, name: &str) -> (r: bool)
        ensures
            r == (env_position(self@, name@) < self@.len()),
    {
        self.position(name).is_some()
    }

    /// How many variables are set.
    pub fn len(&self) -> (n: usize)
        ensures
            n == self@.len(),
    {
        self.entries.len()
    }

    /// Whether no variable is set.
    pub fn is_empty(&self) -> (r: bool)
        ensures
            r == (self@.len() == 0),
    {
        self.entries.len() == 0
    }

    /// The entry at index `i`: a name and its value.
    pub fn entry(&self, i: usize) -> (r: (&str, &str))
        requires
            i < self@.len(),
        ensures
            (r.0@, r.1@) == self@[i as int],
    {
        (self.entries[i].0.as_str(), self.entries[i].1.as_str())
    }

    /// Sets every variable of `more`, in the order of `more`.
    pub fn extend(&mut self, more: &EnvVars)
        ensures
            final(self)@ == env_set_all(old(self)@, more@),
    {
        let mut i: usize = 0;
        assert(more@.take(0) =~= Seq::<(Seq<char>, Seq<char>)>::empty());
        while i < more.entries.len()
            invariant
                i <= more.entries.len(),
                self@ == env_set_all(old(self)@, more@.take(i as int)),
            decreases more.entries.len() - i,
        {
            proof {
                assert(more@.take(i + 1).drop_last() =~= more@.take(i as int));
                assert(more@.take(i + 1).last() == more@[i as int]);
            }
            self.insert(more.entries[i].0.clone(), more.entries[i].1.clone());
            i += 1;
        }
        assert(more@.take(more@.len() as int) =~= more@);
    }
}

/// How the tool is to be kept apart.
#[derive(Debug)]
pub struct IsolationConfig {
    /// Whether the tool gets directories of its own at all.
    pub use_isolation: bool,
    pub custom_config_dir: Option<String>,
    pub custom_cache_dir: Option<String>,
    pub custom_data_dir: Option<String>,
    /// Variables to set on top of those that isolation calls for.
    pub additional_env_vars: EnvVars,
}

impl Default for IsolationConfig {
    fn default() -> (r: Self)
        ensures
            r.use_isolation,
            r.custom_config_dir is None,
            r.custom_cache_dir is None,
            r.custom_data_dir is None,
            r.additional_env_vars@.len() == 0,
    {
        IsolationConfig {
            use_isolation: true,
            custom_config_dir: None,
            custom_cache_dir: None,
            custom_data_dir: None,
            additional_env_vars: EnvVars::new(),
        }
    }
}

/// The three directories of an isolated tool, as they were made.
#[derive(Debug, Clone)]
pub struct IsolationDirs {
    pub config_dir: String,
    pub cache_dir: String,
    pub data_dir: String,
}

/// The directories and the environment of the bundled tool.
#[derive(Debug, Clone)]
pub struct SidecarIsolation {
    config_dir: String,
    cache_dir: String,
    data_dir: String,
    env_vars: EnvVars,
}

/// What is to be known of the isolation.
#[derive(Debug)]
pub struct IsolationInfo {
    pub is_isolated: bool,
    pub config_dir: String,
    pub cache_dir: String,
    pub data_dir: String,
    pub env_vars_count: usize,
    pub system_gytmdl_version: Option<String>,
}

impl SidecarIsolation {
    /// The directory of the tool's settings.
    pub closed spec fn config_dir(&self) -> Seq<char> {
        self.config_dir@
    }

    /// The directory of the tool's cache.
    pub closed spec fn cache_dir(&self) -> Seq<char> {
        self.cache_dir@
    }

    /// The directory of the tool's data.
    pub closed spec fn data_dir(&self) -> Seq<char> {
        self.data_dir@
    }

    /// The environment that the tool is started with.
    pub closed spec fn env(&self) -> Seq<(Seq<char>, Seq<char>)> {
        self.env_vars@
    }

    /// Sets the isolation up for the given operating system. With isolation
    /// switched off there are no directories, and the environment is the
    /// additional variables alone; `prepared` is not looked at. With
    /// isolation on, `prepared` holds the directories that were made for the
    /// tool, or why they could not be: the environment points the tool at
    /// them, with the additional variables set on top.
    pub fn new(config: IsolationConfig, os: &str, prepared: Result<IsolationDirs, String>) -> (r:
        Result<Self, String>)
        ensures
            match r {
                Ok(s) => if !config.use_isolation {
                    s.config_dir().len() == 0 && s.cache_dir().len() == 0 && s.data_dir().len()
                        == 0 && s.env() == config.additional_env_vars@
                } else {
                    prepared is Ok && s.config_dir() == prepared->Ok_0.config_dir@ && s.cache_dir()
                        == prepared->Ok_0.cache_dir@ && s.data_dir() == prepared->Ok_0.data_dir@
                        && s.env() == env_set_all(
                        isolation_env(s.config_dir(), s.cache_dir(), s.data_dir(), os@),
                        config.additional_env_vars@,
                    )
                },
                Err(e) => config.use_isolation && prepared == Err::<IsolationDirs, String>(e),
            },
    {
        if !config.use_isolation {
            return Ok(
                SidecarIsolation {
                    config_dir: String::new(),
                    cache_dir: String::new(),
                    data_dir: String::new(),
                    env_vars: config.additional_env_vars,
                },
            );
        }
        let dirs = match prepared {
            Ok(dirs) => dirs,
            Err(e) => {
                return Err(e);
            },
        };
        let mut env_vars = Self::create_isolation_env_vars(
            dirs.config_dir.as_str(),
            dirs.cache_dir.as_str(),
            dirs.data_dir.as_str(),
            os,
        );
        env_vars.extend(&config.additional_env_vars);
        Ok(
            SidecarIsolation {
                config_dir: dirs.config_dir,
                cache_dir: dirs.cache_dir,
                data_dir: dirs.data_dir,
                env_vars,
            },
        )
    }

    /// The environment that points the tool at the given directories on the
    /// given operating system.
    pub fn create_isolation_env_vars(config_dir: &str, cache_dir: &str, data_dir: &str, os: &str) -> (r:
        EnvVars)
        ensures
            r@ == isolation_env(config_dir@, cache_dir@, data_dir@, os@),
    {
        let mut env = EnvVars::new();
        assert(env@ =~= Seq::<(Seq<char>, Seq<char>)>::empty());
        env.set("GYTMDL_CONFIG_DIR", config_dir);
        env.set("GYTMDL_CACHE_DIR", cache_dir);
        env.set("GYTMDL_DATA_DIR", data_dir);
        if same_text(os, "windows") {
            env.set("APPDATA", data_dir);
            env.set("LOCALAPPDATA", cache_dir);
        } else if same_text(os, "macos") || same_text(os, "linux") {
            env.set("XDG_CONFIG_HOME", config_dir);
            env.set("XDG_CACHE_HOME", cache_dir);
            env.set("XDG_DATA_HOME", data_dir);
        }
        env.set("GYTMDL_NO_SYSTEM_CONFIG", "1");
        env.set("GYTMDL_GUI_MODE", "1");
        env
    }

    /// The directory of the tool's settings; empty without isolation.
    pub fn get_config_dir(&self) -> (r: &str)
        ensures
            r@ == self.config_dir(),
    {
        self.config_dir.as_str()
    }

    /// The directory of the tool's cache; empty without isolation.
    pub fn get_cache_dir(&self) -> (r: &str)
        ensures
            r@ == self.cache_dir(),
    {
        self.cache_dir.as_str()
    }

    /// The directory of the tool's data; empty without isolation.
    pub fn get_data_dir(&self) -> (r: &str)
        ensures
            r@ == self.data_dir(),
    {
        self.data_dir.as_str()
    }

    /// The environment that the tool is started with. No name occurs twice
    /// in it.
    pub fn get_env_vars(&self) -> (r: &EnvVars)
        ensures
            r@ == self.env(),
            has_unique_names(r@),
    {
        proof {
            use_type_invariant(&self.env_vars);
        }
        &self.env_vars
    }

    /// What is to be known of the isolation, given the version of a tool
    /// that is installed on the system, if there is one.
    pub fn get_isolation_info(&self, system_gytmdl_version: Option<String>) -> (r: IsolationInfo)
        ensures
            r.is_isolated == (self.config_dir().len() > 0),
            r.config_dir@ == self.config_dir(),
            r.cache_dir@ == self.cache_dir(),
            r.data_dir@ == self.data_dir(),
            r.env_vars_count == self.env().len(),
            r.system_gytmdl_version == system_gytmdl_version,
    {
        IsolationInfo {
            is_isolated: !self.config_dir.as_str().is_empty(),
            config_dir: self.config_dir.clone(),
            cache_dir: self.cache_dir.clone(),
            data_dir: self.data_dir.clone(),
            env_vars_count: self.env_vars.len(),
            system_gytmdl_version,
        }
    }
}

} // verus!
