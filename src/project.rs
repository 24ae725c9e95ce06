use crate::config::{distinct_keys, Config, DependencySpec};
use vstd::prelude::*;
use vstd::string::StrSliceExecFns;
use vstd::string::StringExecFns;

verus! {

/// The number of `/` in `s`.
pub open spec fn slash_count(s: Seq<char>) -> nat
    decreases s.len(),
{
    if s.len() == 0 {
        0
    } else {
        slash_count(s.drop_last()) + if s.last() == '/' {
            1nat
        } else {
            0nat
        }
    }
}

/// Whether `key` names a scoped package, `@scope/package`: it starts with
/// `@` and holds exactly one `/`.
pub open spec fn is_scoped(key: Seq<char>) -> bool {
    key.len() > 0 && key[0] == '@' && slash_count(key) == 1
}

pub open spec fn has_no_slash(s: Seq<char>) -> bool {
    forall|i: int| 0 <= i < s.len() ==> s[i] != '/'
}

/// The path segments, joined by `/`.
pub open spec fn joined(segments: Seq<Seq<char>>) -> Seq<char> {
    if segments.len() == 2 {
        segments[0] + seq!['/'] + segments[1]
    } else if segments.len() == 1 {
        segments[0]
    } else {
        Seq::empty()
    }
}

proof fn slash_count_zero(s: Seq<char>)
    requires
        slash_count(s) == 0,
    ensures
        has_no_slash(s),
    decreases s.len(),
{
    if s.len() > 0 {
        slash_count_zero(s.drop_last());
        assert forall|i: int| 0 <= i < s.len() implies s[i] != '/' by {
            if i < s.len() - 1 {
                assert(s.drop_last()[i] == s[i]);
            }
        }
    }
}

proof fn no_slash_count(s: Seq<char>)
    requires
        has_no_slash(s),
    ensures
        slash_count(s) == 0,
    decreases s.len(),
{
    if s.len() > 0 {
        no_slash_count(s.drop_last());
    }
}

proof fn slash_count_concat(a: Seq<char>, b: Seq<char>)
    ensures
        slash_count(a + b) == slash_count(a) + slash_count(b),
    decreases b.len(),
{
    if b.len() == 0 {
        assert(a + b =~= a);
    } else {
        slash_count_concat(a, b.drop_last());
        assert((a + b).drop_last() =~= a + b.drop_last());
    }
}

/// The directories under the install root that hold the dependency `key`:
/// `scope` then `package` for a scoped name `@scope/package`, else `key`
/// alone.
pub fn install_segments(key: &str) -> (r: Vec<String>)
    ensures
        joined(r.deep_view()) == key@,
        is_scoped(key@) ==> {
            &&& r@.len() == 2
            &&& r.deep_view()[0][0] == '@'
            &&& has_no_slash(r.deep_view()[0])
            &&& has_no_slash(r.deep_view()[1])
        },
        !is_scoped(key@) ==> r.deep_view() == seq![key@],
{
    let len = key.unicode_len();
    let mut count: usize = 0;
    let mut slash: usize = 0;
    let mut i: usize = 0;
    while i < len
        invariant
            0 <= i <= len,
            len == key@.len(),
            count == slash_count(key@.subrange(0, i as int)),
            count <= i,
            count > 0 ==> slash < i && key@[slash as int] == '/' && has_no_slash(
                key@.subrange(0, slash as int),
            ),
            count == 0 ==> has_no_slash(key@.subrange(0, i as int)),
        decreases len - i,
    {
        let c = key.get_char(i);
        assert(key@.subrange(0, i + 1).drop_last() =~= key@.subrange(0, i as int));
        proof {
            if count == 0 {
                slash_count_zero(key@.subrange(0, i as int));
            }
        }
        if c == '/' {
            if count == 0 {
                slash = i;
            }
            count = count + 1;
        }
        i = i + 1;
        assert forall|j: int| 0 <= j < i && count == 0 implies key@.subrange(0, i as int)[j] != '/' by {
            if j < i - 1 {
                assert(key@.subrange(0, i - 1)[j] == key@[j]);
            }
        }
    }
    assert(key@.subrange(0, len as int) =~= key@);
    let mut r: Vec<String> = Vec::new();
    if len > 0 && key.get_char(0) == '@' && count == 1 {
        let scope = key.substring_char(0, slash);
        let package = key.substring_char(slash + 1, len);
        r.push(String::from_str(scope));
        r.push(String::from_str(package));
        proof {
            assert(key@ =~= scope@ + seq!['/'] + package@);
            assert(r.deep_view() =~= seq![scope@, package@]);
            let ghost head = key@.subrange(0, slash + 1);
            assert(key@ =~= head + package@);
            assert(head.drop_last() =~= scope@);
            slash_count_concat(head, package@);
            no_slash_count(scope@);
            slash_count_zero(package@);
        }
    } else {
        r.push(String::from_str(key));
        assert(r.deep_view() =~= seq![key@]);
    }
    r
}

/// Where the dependency `key` is installed under `installed_root`:
/// `installed_root/key`, which for a scoped name is
/// `installed_root/@scope/package`.
pub fn install_path(installed_root: &str, key: &str) -> (r: String)
    ensures
        r@ == installed_root@ + seq!['/'] + key@,
{
    proof {
        reveal_strlit("/");
    }
    let segments = install_segments(key);
    let mut r = String::from_str(installed_root);
    r.append("/");
    r.append(segments[0].as_str());
    if segments.len() == 2 {
        r.append("/");
        r.append(segments[1].as_str());
    }
    proof {
        let segs = segments.deep_view();
        if segs.len() == 2 {
            assert(r@ =~= installed_root@ + seq!['/'] + (segs[0] + seq!['/'] + segs[1]));
        }
    }
    r
}

/// A project built from a [Config]: the directory of each installed
/// dependency, by key.
#[derive(Debug, Clone, PartialEq, Eq)]
pub struct Project {
    pub dependencies: Vec<(String, String)>,
}

/// The keys of `deps`, in order.
pub open spec fn keys_of(deps: Seq<(String, DependencySpec)>) -> Seq<Seq<char>> {
    deps.map_values(|d: (String, DependencySpec)| d.0@)
}

/// Each key paired with the directory found for it, in order; a key whose
/// directory was not found is left out.
pub open spec fn resolved(keys: Seq<Seq<char>>, found: Seq<Option<Seq<char>>>) -> Seq<(Seq<char>, Seq<char>)>
    decreases keys.len(),
{
    if keys.len() == 0 || found.len() == 0 {
        Seq::empty()
    } else {
        let rest = resolved(keys.drop_last(), found.drop_last());
        match found.last() {
            Some(dir) => rest.push((keys.last(), dir)),
            None => rest,
        }
    }
}

proof fn resolved_keys_are_keys(keys: Seq<Seq<char>>, found: Seq<Option<Seq<char>>>)
    ensures
        forall|i: int| 0 <= i < resolved(keys, found).len() ==> keys.contains(#[trigger] resolved(keys, found)[i].0),
    decreases keys.len(),
{
    if keys.len() > 0 && found.len() > 0 {
        let rest = resolved(keys.drop_last(), found.drop_last());
        resolved_keys_are_keys(keys.drop_last(), found.drop_last());
        assert forall|i: int| 0 <= i < resolved(keys, found).len() implies keys.contains(#[trigger] resolved(keys, found)[i].0) by {
            if i < rest.len() {
                let k = choose|j: int| 0 <= j < keys.drop_last().len() && keys.drop_last()[j] == rest[i].0;
                assert(keys[k] == rest[i].0);
            } else {
                assert(keys[keys.len() - 1] == keys.last());
            }
        }
    }
}

proof fn resolved_keys_distinct(keys: Seq<Seq<char>>, found: Seq<Option<Seq<char>>>)
    requires
        forall|i: int, j: int| 0 <= i < j < keys.len() ==> keys[i] != keys[j],
    ensures
        forall|i: int, j: int|
            0 <= i < j < resolved(keys, found).len() ==> (#[trigger] resolved(keys, found)[i]).0
                != (#[trigger] resolved(keys, found)[j]).0,
    decreases keys.len(),
{
    if keys.len() > 0 && found.len() > 0 {
        let short = keys.drop_last();
        let rest = resolved(short, found.drop_last());
        resolved_keys_distinct(short, found.drop_last());
        resolved_keys_are_keys(short, found.drop_last());
        assert forall|i: int| 0 <= i < rest.len() implies rest[i].0 != keys.last() by {
            assert(short.contains(rest[i].0));
            let k = choose|j: int| 0 <= j < short.len() && short[j] == rest[i].0;
            assert(keys[k] != keys[keys.len() - 1]);
        }
    }
}

impl Project {
    /// Each dependency key occurs once.
    pub open spec fn wf(&self) -> bool {
        distinct_keys(self.dependencies@)
    }
}

/// The project of `config` once installed, given for each dependency, in
/// order, the directory found for it on disk (`None`: not found). A
/// dependency that was not found is left out; that is no error.
pub fn resolve_dependencies(config: &Config, found: &Vec<Option<String>>) -> (r: Project)
    requires
        found@.len() == config.dependencies@.len(),
    ensures
        r.dependencies.deep_view() == resolved(keys_of(config.dependencies@), found.deep_view()),
        config.wf() ==> r.wf(),
{
    let deps = &config.dependencies;
    let ghost keys = keys_of(deps@);
    let ghost dirs = found.deep_view();
    let mut out: Vec<(String, String)> = Vec::new();
    let mut i: usize = 0;
    while i < deps.len()
        invariant
            0 <= i <= deps@.len(),
            deps@.len() == found@.len(),
            keys == keys_of(deps@),
            dirs == found.deep_view(),
            out.deep_view() == resolved(keys.subrange(0, i as int), dirs.subrange(0, i as int)),
        decreases deps@.len() - i,
    {
        let ghost before = out.deep_view();
        assert(keys.subrange(0, i + 1).drop_last() =~= keys.subrange(0, i as int));
        assert(dirs.subrange(0, i + 1).drop_last() =~= dirs.subrange(0, i as int));
        match &found[i] {
            Some(dir) => {
                let key = deps[i].0.clone();
                out.push((key, dir.clone()));
                assert(out.deep_view() =~= before.push((keys[i as int], dir@)));
            },
            None => {},
        }
        i = i + 1;
    }
    assert(keys.subrange(0, i as int) =~= keys);
    assert(dirs.subrange(0, i as int) =~= dirs);
    proof {
        if config.wf() {
            assert forall|a: int, b: int| 0 <= a < b < keys.len() implies keys[a] != keys[b] by {
                assert(deps@[a].0@ != deps@[b].0@);
            }
            resolved_keys_distinct(keys, dirs);
            assert forall|a: int, b: int| 0 <= a < b < out@.len() implies (#[trigger] out@[a]).0@ != (#[trigger] out@[b]).0@ by {
                assert(out.deep_view()[a].0 == out@[a].0@);
                assert(out.deep_view()[b].0 == out@[b].0@);
            }
        }
    }
    Project { dependencies: out }
}

/// The text that stands for the directory of the dependency `key` in a
/// template: `{{ interop:key }}`.
pub open spec fn placeholder_of(key: Seq<char>) -> Seq<char> {
    "{{ interop:"@ + key + " }}"@
}

/// The placeholder of the dependency `key`.
pub fn placeholder(key: &str) -> (r: String)
    ensures
        r@ == placeholder_of(key@),
{
    let mut r = String::from_str("{{ interop:");
    r.append(key);
    r.append(" }}");
    r
}

/// `text` with every occurrence of `from` replaced by `to`.
pub uninterp spec fn replaced(text: Seq<char>, from: Seq<char>, to: Seq<char>) -> Seq<char>;

/// Relies on str::replace: each non-overlapping occurrence of `from`, found
/// from the left, becomes `to`; the result depends on the three texts alone.
#[verifier::external_body]
fn replace_all(text: &str, from: &str, to: &str) -> (r: String)
    ensures
        r@ == replaced(text@, from@, to@),
{
    text.replace(from, to)
}

/// `text` with the placeholder of each of `deps` replaced by its directory,
/// one dependency after another, in order.
pub open spec fn substituted(text: Seq<char>, deps: Seq<(Seq<char>, Seq<char>)>) -> Seq<char>
    decreases deps.len(),
{
    if deps.len() == 0 {
        text
    } else {
        replaced(substituted(text, deps.drop_last()), placeholder_of(deps.last().0), deps.last().1)
    }
}

impl Project {
    /// A template's text with the placeholder of each installed dependency
    /// replaced by the dependency's directory.
    pub fn render_template(&self, text: &str) -> (r: String)
        ensures
            r@ == substituted(text@, self.dependencies.deep_view()),
    {
        let deps = &self.dependencies;
        let ghost all = deps.deep_view();
        let mut out = String::from_str(text);
        let mut i: usize = 0;
        while i < deps.len()
            invariant
                0 <= i <= deps@.len(),
                all == deps.deep_view(),
                out@ == substituted(text@, all.subrange(0, i as int)),
            decreases deps@.len() - i,
        {
            let pattern = placeholder(deps[i].0.as_str());
            out = replace_all(out.as_str(), pattern.as_str(), deps[i].1.as_str());
            assert(all.subrange(0, i + 1).drop_last() =~= all.subrange(0, i as int));
            i = i + 1;
        }
        assert(all.subrange(0, i as int) =~= all);
        out
    }
}

} // verus!
