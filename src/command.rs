use vstd::prelude::*;

verus! {

/// A child process to launch: the program, its arguments in order, and the
/// variables merged into the environment it inherits.
pub struct CommandSpec {
    pub program: String,
    pub args: Vec<String>,
    pub envs: Vec<(String, String)>,
}

pub open spec fn strings_of(v: Seq<String>) -> Seq<Seq<char>> {
    v.map_values(|s: String| s@)
}

pub open spec fn env_of(v: Seq<(String, String)>) -> Seq<(Seq<char>, Seq<char>)> {
    v.map_values(|p: (String, String)| (p.0@, p.1@))
}

impl CommandSpec {
    pub open spec fn args_view(&self) -> Seq<Seq<char>> {
        strings_of(self.args@)
    }

    pub open spec fn env_view(&self) -> Seq<(Seq<char>, Seq<char>)> {
        env_of(self.envs@)
    }
}

/// A copy of `v` whose strings hold the same text.
pub fn copy_strings(v: &Vec<String>) -> (r: Vec<String>)
    ensures
        strings_of(r@) == strings_of(v@),
{
    let mut r: Vec<String> = Vec::new();
    let mut i: usize = 0;
    while i < v.len()
        invariant
            0 <= i <= v@.len(),
            strings_of(r@) == strings_of(v@.subrange(0, i as int)),
        decreases v@.len() - i,
    {
        r.push(v[i].clone());
        assert(strings_of(v@.subrange(0, i + 1)) =~= strings_of(v@.subrange(0, i as int)).push(
            v@[i as int]@,
        ));
        assert(strings_of(r@) =~= strings_of(v@.subrange(0, i + 1)));
        i = i + 1;
    }
    assert(v@.subrange(0, v@.len() as int) =~= v@);
    r
}

/// Appends copies of the strings of `extra` to `v`.
pub fn extend_strings(v: &mut Vec<String>, extra: &Vec<String>)
    ensures
        strings_of(final(v)@) == strings_of(old(v)@) + strings_of(extra@),
{
    let mut i: usize = 0;
    while i < extra.len()
        invariant
            0 <= i <= extra@.len(),
            strings_of(v@) == strings_of(old(v)@) + strings_of(extra@.subrange(0, i as int)),
        decreases extra@.len() - i,
    {
        let ghost prev = v@;
        v.push(extra[i].clone());
        assert(strings_of(v@) =~= strings_of(prev).push(extra@[i as int]@));
        assert(strings_of(extra@.subrange(0, i + 1)) =~= strings_of(
            extra@.subrange(0, i as int),
        ).push(extra@[i as int]@));
        assert(strings_of(v@) =~= strings_of(old(v)@) + strings_of(extra@.subrange(0, i + 1)));
        i = i + 1;
    }
    assert(extra@.subrange(0, extra@.len() as int) =~= extra@);
}

/// A copy of the environment pairs of `v`.
pub fn copy_env(v: &Vec<(String, String)>) -> (r: Vec<(String, String)>)
    ensures
        env_of(r@) == env_of(v@),
{
    let mut r: Vec<(String, String)> = Vec::new();
    let mut i: usize = 0;
    while i < v.len()
        invariant
            0 <= i <= v@.len(),
            env_of(r@) == env_of(v@.subrange(0, i as int)),
        decreases v@.len() - i,
    {
        let k = v[i].0.clone();
        let x = v[i].1.clone();
        r.push((k, x));
        assert(env_of(v@.subrange(0, i + 1)) =~= env_of(v@.subrange(0, i as int)).push(
            (v@[i as int].0@, v@[i as int].1@),
        ));
        assert(env_of(r@) =~= env_of(v@.subrange(0, i + 1)));
        i = i + 1;
    }
    assert(v@.subrange(0, v@.len() as int) =~= v@);
    r
}

} // verus!
