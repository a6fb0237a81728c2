//! The session state of one running shell: environment variables, aliases,
//! the bounded command history and the directory stack.
use vstd::prelude::*;

use std::collections::VecDeque;

use crate::table::{assign, lookup, Entries, Table};
use crate::text::views;

verus! {

/// How many entries the history keeps.
pub const HISTORY_LIMIT: usize = 1000;

/// The name of the variable that holds the system-information preference.
pub const SHOW_SYSTEM_INFO: &'static str = "SHOW_SYSTEM_INFO";

/// What a shell holds.
pub struct ShellModel {
    pub env: Entries,
    pub aliases: Entries,
    pub history: Seq<Seq<char>>,
    pub dirs: Seq<Seq<char>>,
}

/// `h` with `c` appended, the oldest entry dropped when `h` is full.
pub open spec fn bounded_push(h: Seq<Seq<char>>, c: Seq<char>) -> Seq<Seq<char>> {
    if h.len() >= HISTORY_LIMIT {
        h.drop_first().push(c)
    } else {
        h.push(c)
    }
}

/// The result of `str::to_lowercase` on `s`.
pub uninterp spec fn lower_of(s: Seq<char>) -> Seq<char>;

/// Relies on `str::to_lowercase`: the lower-case form of `s`, which depends
/// on its characters alone.
#[verifier::external_body]
fn lowercase(s: &str) -> (r: String)
    ensures
        r@ == lower_of(s@),
{
    s.to_lowercase()
}

/// Whether a value of `SHOW_SYSTEM_INFO` asks for the system information:
/// an unset variable does, a set one when its lower-case form is `true`.
pub open spec fn shows_system_info(v: Option<Seq<char>>) -> bool {
    match v {
        Some(s) => lower_of(s) == "true"@,
        None => true,
    }
}

/// The text that `set_show_system_info` stores.
pub open spec fn flag_text(show: bool) -> Seq<char> {
    if show {
        "true"@
    } else {
        "false"@
    }
}

/// The session state of one shell.
#[derive(Clone)]
pub struct Shell {
    env_vars: Table,
    aliases: Table,
    history: VecDeque<String>,
    dir_stack: Vec<String>,
}

impl View for Shell {
    type V = ShellModel;

    closed spec fn view(&self) -> ShellModel {
        ShellModel {
            env: self.env_vars@,
            aliases: self.aliases@,
            history: views(self.history@),
            dirs: views(self.dir_stack@),
        }
    }
}

impl Shell {
    /// Names are unique in both tables and the history is within its bound.
    pub closed spec fn wf(&self) -> bool {
        &&& self.env_vars.wf()
        &&& self.aliases.wf()
        &&& self.history@.len() <= HISTORY_LIMIT
    }

    /// A shell with no variables, aliases, history or saved directories.
    pub fn new() -> (r: Shell)
        ensures
            r.wf(),
            r@.env.len() == 0,
            r@.aliases.len() == 0,
            r@.history.len() == 0,
            r@.dirs.len() == 0,
    {
        Shell {
            env_vars: Table::new(),
            aliases: Table::new(),
            history: VecDeque::new(),
            dir_stack: Vec::new(),
        }
    }

    /// The environment variables.
    pub fn env_vars(&self) -> (r: &Table)
        ensures
            r@ == self@.env,
            self.wf() ==> r.wf(),
    {
        &self.env_vars
    }

    /// The aliases.
    pub fn aliases(&self) -> (r: &Table)
        ensures
            r@ == self@.aliases,
            self.wf() ==> r.wf(),
    {
        &self.aliases
    }

    /// The history, oldest entry first.
    pub fn history(&self) -> (r: &VecDeque<String>)
        ensures
            views(r@) == self@.history,
    {
        &self.history
    }

    /// The value of an environment variable.
    pub fn get_env(&self, key: &str) -> (r: Option<&String>)
        ensures
            match r {
                Some(v) => lookup(self@.env, key@) == Some(v@),
                None => lookup(self@.env, key@) is None,
            },
    {
        self.env_vars.get(key)
    }

    /// Sets an environment variable.
    pub fn set_env(&mut self, key: String, value: String)
        requires
            old(self).wf(),
        ensures
            final(self).wf(),
            final(self)@ == (ShellModel { env: assign(old(self)@.env, key@, value@), ..old(self)@ }),
    {
        self.env_vars.set(key, value);
    }

    /// Defines or redefines an alias.
    pub fn add_alias(&mut self, name: String, command: String)
        requires
            old(self).wf(),
        ensures
            final(self).wf(),
            final(self)@ == (ShellModel {
                aliases: assign(old(self)@.aliases, name@, command@),
                ..old(self)@
            }),
    {
        self.aliases.set(name, command);
    }

    /// The command line that an alias stands for.
    pub fn get_alias(&self, name: &str) -> (r: Option<&String>)
        ensures
            match r {
                Some(v) => lookup(self@.aliases, name@) == Some(v@),
                None => lookup(self@.aliases, name@) is None,
            },
    {
        self.aliases.get(name)
    }

    /// Records an entered command; the oldest goes once the history is full.
    pub fn add_to_history(&mut self, command: String)
        requires
            old(self).wf(),
        ensures
            final(self).wf(),
            final(self)@ == (ShellModel {
                history: bounded_push(old(self)@.history, command@),
                ..old(self)@
            }),
    {
        let ghost h = self.history@;
        if self.history.len() >= HISTORY_LIMIT {
            self.history.pop_front();
            assert(views(self.history@) =~= views(h).drop_first());
        }
        let ghost g = self.history@;
        self.history.push_back(command);
        assert(views(self.history@) =~= views(g).push(self.history@.last()@));
    }

    /// Saves a directory on the stack.
    pub fn push_dir(&mut self, dir: String)
        requires
            old(self).wf(),
        ensures
            final(self).wf(),
            final(self)@ == (ShellModel { dirs: old(self)@.dirs.push(dir@), ..old(self)@ }),
    {
        let ghost d = self.dir_stack@;
        self.dir_stack.push(dir);
        assert(views(self.dir_stack@) =~= views(d).push(self.dir_stack@.last()@));
    }

    /// Takes the most recently saved directory off the stack.
    pub fn pop_dir(&mut self) -> (r: Option<String>)
        requires
            old(self).wf(),
        ensures
            final(self).wf(),
            old(self)@.dirs.len() == 0 ==> r is None && final(self)@ == old(self)@,
            old(self)@.dirs.len() > 0 ==> r is Some && r->0@ == old(self)@.dirs.last()
                && final(self)@ == (ShellModel { dirs: old(self)@.dirs.drop_last(), ..old(self)@ }),
    {
        let ghost d = self.dir_stack@;
        let r = self.dir_stack.pop();
        assert(views(self.dir_stack@) =~= views(d).subrange(0, self.dir_stack@.len() as int));
        r
    }

    /// Whether the system information is to be shown at start-up.
    pub fn get_show_system_info(&self) -> (r: bool)
        ensures
            r == shows_system_info(lookup(self@.env, SHOW_SYSTEM_INFO@)),
    {
        match self.get_env(SHOW_SYSTEM_INFO) {
            Some(v) => {
                let low = lowercase(v.as_str());
                crate::text::same_text(low.as_str(), "true")
            },
            None => true,
        }
    }

    /// Records the system-information preference in the environment.
    pub fn set_show_system_info(&mut self, show: bool)
        requires
            old(self).wf(),
        ensures
            final(self).wf(),
            final(self)@ == (ShellModel {
                env: assign(old(self)@.env, SHOW_SYSTEM_INFO@, flag_text(show)),
                ..old(self)@
            }),
    {
        let key = crate::text::copy_of(SHOW_SYSTEM_INFO);
        let value = if show {
            crate::text::copy_of("true")
        } else {
            crate::text::copy_of("false")
        };
        self.set_env(key, value);
    }
}

} // verus!
