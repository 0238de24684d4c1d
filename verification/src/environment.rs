//! The process environment as the configuration reads it.

use vstd::prelude::*;

use crate::choice::{first_present, first_present_is_first};
use crate::text::{blank, is_blank, text_outcome, white_space};

verus! {

/// Why a variable that is not set cannot be read.
pub const NOT_FOUND: &'static str = "environment variable not found";

/// What the records `vars` amount to; a later record of a name replaces an earlier
/// one.
spec fn settled(vars: Seq<(String, Result<String, String>)>) -> Map<
    Seq<char>,
    Result<Seq<char>, Seq<char>>,
>
    decreases vars.len(),
{
    if vars.len() == 0 {
        Map::empty()
    } else {
        settled(vars.drop_last()).insert(vars.last().0@, text_outcome(vars.last().1))
    }
}

/// Records under other names leave what `key` is set to alone.
proof fn lemma_settled_skips(vars: Seq<(String, Result<String, String>)>, n: int, key: Seq<char>)
    requires
        0 <= n <= vars.len(),
        forall|j: int| n <= j < vars.len() ==> (#[trigger] vars[j]).0@ != key,
    ensures
        settled(vars).get(key) == settled(vars.take(n)).get(key),
    decreases vars.len() - n,
{
    if n == vars.len() {
        assert(vars.take(n) == vars);
    } else {
        lemma_settled_skips(vars, n + 1, key);
        assert(vars.take(n + 1).drop_last() == vars.take(n));
        assert(vars[n].0@ != key);
    }
}

/// Environment variables by name: each with its value, or with what keeps its value
/// from being read as text.
pub struct Environment {
    vars: Vec<(String, Result<String, String>)>,
}

impl View for Environment {
    type V = Map<Seq<char>, Seq<char>>;

    /// The variables that can be read.
    open spec fn view(&self) -> Map<Seq<char>, Seq<char>> {
        Map::new(
            |name: Seq<char>|
                self.readings().contains_key(name) && self.readings()[name] is Ok,
            |name: Seq<char>| self.readings()[name]->Ok_0,
        )
    }
}

impl Environment {
    /// What reading each variable comes to.
    pub closed spec fn readings(&self) -> Map<Seq<char>, Result<Seq<char>, Seq<char>>> {
        settled(self.vars@)
    }

    /// Why `name` cannot be read, where it cannot.
    pub open spec fn fault(&self, name: Seq<char>) -> Seq<char> {
        match self.readings().get(name) {
            Some(Err(reason)) => reason,
            _ => NOT_FOUND@,
        }
    }

    /// An environment in which nothing is set.
    pub fn new() -> (env: Self)
        ensures
            env.readings() == Map::<Seq<char>, Result<Seq<char>, Seq<char>>>::empty(),
            env@ == Map::<Seq<char>, Seq<char>>::empty(),
    {
        Environment { vars: Vec::new() }
    }

    /// Sets `name` to `value`.
    pub fn set(&mut self, name: String, value: String)
        ensures
            final(self).readings() == old(self).readings().insert(name@, Ok(value@)),
            final(self)@ == old(self)@.insert(name@, value@),
    {
        self.vars.push((name, Ok(value)));
        assert(self.vars@.drop_last() == old(self).vars@);
    }

    /// Sets `name` to something that cannot be read as text, for the given reason.
    pub fn set_unreadable(&mut self, name: String, reason: String)
        ensures
            final(self).readings() == old(self).readings().insert(name@, Err(reason@)),
            final(self)@ == old(self)@.remove(name@),
    {
        self.vars.push((name, Err(reason)));
        assert(self.vars@.drop_last() == old(self).vars@);
    }

    /// What `name` is set to, or why it cannot be read.
    pub fn read(&self, name: &str) -> (reading: Result<String, String>)
        ensures
            match reading {
                Ok(value) => self@.get(name@) == Some(value@),
                Err(reason) => self@.get(name@) is None && reason@ == self.fault(name@),
            },
    {
        let key: String = name.to_string();
        let mut i: usize = self.vars.len();
        while i > 0
            invariant
                i <= self.vars.len(),
                key@ == name@,
                forall|j: int| i <= j < self.vars.len() ==> (#[trigger] self.vars@[j]).0@ != name@,
            decreases i,
        {
            i -= 1;
            if self.vars[i].0 == key {
                proof {
                    lemma_settled_skips(self.vars@, i + 1, name@);
                    assert(self.vars@.take(i + 1).last() == self.vars@[i as int]);
                }
                return match &self.vars[i].1 {
                    Ok(value) => Ok(value.clone()),
                    Err(reason) => Err(reason.clone()),
                };
            }
        }
        proof {
            lemma_settled_skips(self.vars@, 0, name@);
        }
        Err(NOT_FOUND.to_string())
    }

    /// What `name` is set to. A variable that cannot be read counts as one that is not
    /// set.
    pub fn get(&self, name: &str) -> (value: Option<String>)
        ensures
            value.deep_view() == self@.get(name@),
    {
        match self.read(name) {
            Ok(value) => Some(value),
            Err(_) => None,
        }
    }
}

/// What `name` is set to in `env`, when that is more than white space.
pub open spec fn filled(env: Map<Seq<char>, Seq<char>>, name: Seq<char>) -> Option<Seq<char>> {
    match env.get(name) {
        Some(value) => if blank(value) {
            None
        } else {
            Some(value)
        },
        None => None,
    }
}

/// The value of the first of `names` that is filled in `env`.
pub open spec fn first_filled(
    env: Map<Seq<char>, Seq<char>>,
    names: Seq<Seq<char>>,
) -> Option<Seq<char>> {
    first_present(names.map_values(|name: Seq<char>| filled(env, name)))
}

/// What `name` is set to in `env`, or `default` where it is not set.
pub open spec fn or_default(
    env: Map<Seq<char>, Seq<char>>,
    name: Seq<char>,
    default: Seq<char>,
) -> Seq<char> {
    match env.get(name) {
        Some(value) => value,
        None => default,
    }
}

/// Reads a variable that counts as absent while it is blank.
pub fn filled_env(env: &Environment, name: &str) -> (value: Option<String>)
    ensures
        value.deep_view() == filled(env@, name@),
        value is Some <==> env@.contains_key(name@) && !blank(env@[name@]),
        value is Some ==> value->0@ == env@[name@],
{
    match env.get(name) {
        Some(value) => if is_blank(value.as_str()) {
            None
        } else {
            Some(value)
        },
        None => None,
    }
}

/// Reads the first of several variables that is set to more than white space.
pub fn first_env(env: &Environment, keys: &[&str]) -> (value: Option<String>)
    ensures
        value.deep_view() == first_filled(env@, keys.deep_view()),
{
    let ghost names = keys.deep_view();
    for i in 0..keys.len()
        invariant
            names == keys.deep_view(),
            forall|j: int| 0 <= j < i ==> filled(env@, #[trigger] names[j]) is None,
    {
        assert(names[i as int] == keys[i as int]@);
        let value = filled_env(env, keys[i]);
        if value.is_some() {
            proof {
                first_filled_is_first(env@, names);
            }
            return value;
        }
    }
    proof {
        first_filled_is_first(env@, names);
    }
    None
}

/// Reads a variable that has a default.
pub fn env_or(env: &Environment, name: &str, default: &str) -> (value: String)
    ensures
        value@ == or_default(env@, name@, default@),
        env@.contains_key(name@) ==> value@ == env@[name@],
        !env@.contains_key(name@) ==> value@ == default@,
{
    match env.get(name) {
        Some(value) => value,
        None => default.to_string(),
    }
}

/// `first_env` returns a value exactly when one of its variables is filled, and
/// then the value of the filled variable that comes first.
pub proof fn first_filled_is_first(env: Map<Seq<char>, Seq<char>>, names: Seq<Seq<char>>)
    ensures
        first_filled(env, names) is None <==> (forall|i: int|
            0 <= i < names.len() ==> filled(env, #[trigger] names[i]) is None),
        first_filled(env, names) is Some ==> (exists|i: int|
            0 <= i < names.len() && filled(env, #[trigger] names[i]) == first_filled(env, names)
                && (forall|j: int| 0 <= j < i ==> filled(env, #[trigger] names[j]) is None)),
{
    let options = names.map_values(|name: Seq<char>| filled(env, name));
    first_present_is_first(options);
    assert forall|i: int| 0 <= i < names.len() implies filled(env, #[trigger] names[i])
        == options[i] by {
    }
}

/// A variable is filled exactly when it is set and holds something besides white space,
/// and then it is taken as it is, white space included. Other variables do not matter.
pub proof fn filled_is_taken_as_it_is(
    env: Map<Seq<char>, Seq<char>>,
    name: Seq<char>,
    other: Seq<char>,
    value: Seq<char>,
)
    ensures
        filled(env, name) is Some <==> env.contains_key(name) && (exists|i: int|
            0 <= i < env[name].len() && !white_space(#[trigger] env[name][i])),
        filled(env, name) is Some ==> filled(env, name)->0 == env[name],
        other != name ==> filled(env.insert(other, value), name) == filled(env, name),
{
}

/// A variable with a default takes its own value wherever it is set, even to nothing, and
/// the default where it is not.
pub proof fn default_is_for_absent_variables(
    env: Map<Seq<char>, Seq<char>>,
    name: Seq<char>,
    value: Seq<char>,
    default: Seq<char>,
)
    ensures
        or_default(env.insert(name, value), name, default) == value,
        or_default(env.remove(name), name, default) == default,
        env.contains_key(name) ==> or_default(env, name, default) == env[name],
        !env.contains_key(name) ==> or_default(env, name, default) == default,
{
}

/// A variable that cannot be read is told apart from one that is not set, by the reason.
pub proof fn faults_are_told_apart(env: Environment, name: Seq<char>, reason: Seq<char>)
    ensures
        env.readings().get(name) == Some(Err::<Seq<char>, Seq<char>>(reason)) ==> env.fault(name)
            == reason && !env@.contains_key(name),
        !env.readings().contains_key(name) ==> env.fault(name) == "environment variable not found"@
            && !env@.contains_key(name),
        env@.contains_key(name) <==> env.readings().contains_key(name)
            && env.readings()[name] is Ok,
        env@.contains_key(name) ==> env.readings()[name] == Ok::<Seq<char>, Seq<char>>(env@[name]),
{
}

} // verus!
