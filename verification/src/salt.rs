//! Salt path rules for the provisioning states.
//!
//! Files handed to Salt must live under one of its configured file roots. A
//! managed file is referred to by a `salt://` source path — the file's path
//! with the root stripped and the scheme prepended — and a state file by a
//! dotted state name: the path with the root stripped, the leading slash
//! dropped, every slash turned into a dot, and the `.sls` ending removed.

use crate::text::spec_ends_with;
use crate::text::spec_replace_char;
use crate::text::spec_starts_with;
use crate::text::append_replaced;
use crate::text::find_char_from;
use crate::text::spec_find;
use crate::text::spec_lines;
use crate::text::spec_trim;
use crate::text::str_ends_with;
use crate::text::str_eq;
use crate::text::str_lines;
use crate::text::str_starts_with;
use crate::text::trim_str;
use vstd::prelude::*;
use vstd::string::StrSliceExecFns;
use vstd::string::StringExecFns;

verus! {

/// Why a path was rejected.
#[derive(Clone, Copy, Debug, PartialEq, Eq, Structural)]
pub enum SaltError {
    /// The path lies under none of the configured file roots.
    RootNotFound,
    /// The root-stripped path does not begin with a slash.
    NotAbsolute,
    /// The root-stripped path does not end in `.sls`.
    BadStateName,
}

/// One VM's worth of generated states: the target VM and the state names to
/// apply to it.
pub struct SlsVmComplement {
    pub target_vm: String,
    pub states: Vec<String>,
}

/// Index of the first root that is a prefix of `path`; negative when none
/// is.
pub open spec fn spec_first_root(path: Seq<char>, roots: Seq<Seq<char>>) -> int
    decreases roots.len(),
{
    if roots.len() == 0 {
        -1
    } else if spec_starts_with(path, roots[0]) {
        0
    } else {
        let rest = spec_first_root(path, roots.drop_first());
        if rest < 0 {
            -1
        } else {
            1 + rest
        }
    }
}

/// `path` with its first matching root stripped off.
pub open spec fn spec_strip_root(path: Seq<char>, roots: Seq<Seq<char>>) -> Seq<char>
    recommends
        spec_first_root(path, roots) >= 0,
{
    path.skip(roots[spec_first_root(path, roots)].len() as int)
}

/// The `salt://` source path of a managed file under a root.
pub open spec fn spec_salt_source(path: Seq<char>, roots: Seq<Seq<char>>) -> Seq<char>
    recommends
        spec_first_root(path, roots) >= 0,
{
    "salt:/"@ + spec_strip_root(path, roots)
}

/// The dotted state name of a state file under a root.
pub open spec fn spec_state_name(path: Seq<char>, roots: Seq<Seq<char>>) -> Seq<char>
    recommends
        spec_first_root(path, roots) >= 0,
{
    let s = spec_strip_root(path, roots);
    spec_replace_char(s.subrange(1, s.len() - 4), '/', '.')
}

/// A path yields a state name: it lies under a root, and the stripped rest
/// begins with a slash and ends in `.sls`.
pub open spec fn spec_state_ok(path: Seq<char>, roots: Seq<Seq<char>>) -> bool {
    &&& spec_first_root(path, roots) >= 0
    &&& spec_starts_with(spec_strip_root(path, roots), "/"@)
    &&& spec_ends_with(spec_strip_root(path, roots), ".sls"@)
}

/// The first of the state-name conditions that `path` fails, as the error
/// reported for it.
pub open spec fn spec_state_err(path: Seq<char>, roots: Seq<Seq<char>>) -> SaltError {
    if spec_first_root(path, roots) < 0 {
        SaltError::RootNotFound
    } else if !spec_starts_with(spec_strip_root(path, roots), "/"@) {
        SaltError::NotAbsolute
    } else {
        SaltError::BadStateName
    }
}

/// When some root at or after position `i` matches and none before `i`
/// does, the first match is the first matching index at or after `i`.
proof fn lemma_first_root_found(path: Seq<char>, roots: Seq<Seq<char>>, i: int)
    requires
        0 <= i < roots.len(),
        spec_starts_with(path, roots[i]),
        forall|j: int| 0 <= j < i ==> !spec_starts_with(path, roots[j]),
    ensures
        spec_first_root(path, roots) == i,
    decreases i,
{
    if i > 0 {
        lemma_first_root_found(path, roots.drop_first(), i - 1);
    }
}

/// When no root matches, the first-match index is negative.
proof fn lemma_first_root_none(path: Seq<char>, roots: Seq<Seq<char>>)
    requires
        forall|j: int| 0 <= j < roots.len() ==> !spec_starts_with(path, roots[j]),
    ensures
        spec_first_root(path, roots) == -1,
    decreases roots.len(),
{
    if roots.len() > 0 {
        lemma_first_root_none(path, roots.drop_first());
    }
}

/// Strip the first matching file root off `file_path`.
///
/// Returns the path with the root removed, or [`SaltError::RootNotFound`]
/// exactly when no configured root is a prefix of the path.
pub fn verify_roots(file_path: &String, file_roots: &Vec<String>) -> (r: Result<String, SaltError>)
    ensures
        r is Ok <==> spec_first_root(file_path@, file_roots.deep_view()) >= 0,
        r matches Ok(out) ==> out@ == spec_strip_root(file_path@, file_roots.deep_view()),
        r matches Err(e) ==> e is RootNotFound,
{
    let ghost roots = file_roots.deep_view();
    let n = file_roots.len();
    let mut i: usize = 0;
    while i < n
        invariant
            i <= n,
            n == file_roots@.len(),
            roots == file_roots.deep_view(),
            forall|j: int| 0 <= j < i ==> !spec_starts_with(file_path@, roots[j]),
        decreases n - i,
    {
        proof {
            assert(roots[i as int] == file_roots@[i as int]@);
        }
        if str_starts_with(file_path.as_str(), file_roots[i].as_str()) {
            proof {
                lemma_first_root_found(file_path@, roots, i as int);
            }
            let plen = file_roots[i].as_str().unicode_len();
            let total = file_path.as_str().unicode_len();
            let out = file_path.as_str().substring_char(plen, total).to_owned();
            return Ok(out);
        }
        i = i + 1;
    }
    proof {
        lemma_first_root_none(file_path@, roots);
    }
    Err(SaltError::RootNotFound)
}

/// Turn a managed file's path into its `salt://` source path.
///
/// Succeeds exactly when the path lies under a configured root; the result
/// is `salt:/` followed by the root-stripped path.
pub fn parse_verify_file(file_path: String, file_roots: &Vec<String>) -> (r: Result<
    String,
    SaltError,
>)
    ensures
        r is Ok <==> spec_first_root(file_path@, file_roots.deep_view()) >= 0,
        r matches Ok(out) ==> out@ == spec_salt_source(file_path@, file_roots.deep_view()),
        r matches Err(e) ==> e is RootNotFound,
{
    let suffix = match verify_roots(&file_path, file_roots) {
        Ok(s) => s,
        Err(e) => { return Err(e) },
    };
    let mut out = ("salt:/").to_owned();
    out.append(suffix.as_str());
    Ok(out)
}

/// Turn a state file's path into its dotted state name.
///
/// Succeeds exactly when the path lies under a configured root, the
/// root-stripped path begins with a slash and ends in `.sls`; the name is
/// what stands between, with slashes turned into dots. Each error names the
/// first of those conditions to fail.
pub fn parse_verify_state(file_path: String, file_roots: &Vec<String>) -> (r: Result<
    String,
    SaltError,
>)
    ensures
        r is Ok <==> spec_state_ok(file_path@, file_roots.deep_view()),
        r matches Ok(out) ==> out@ == spec_state_name(file_path@, file_roots.deep_view()),
        r matches Err(e) ==> e == spec_state_err(file_path@, file_roots.deep_view()),
{
    let suffix = match verify_roots(&file_path, file_roots) {
        Ok(s) => s,
        Err(e) => { return Err(e) },
    };
    if !str_starts_with(suffix.as_str(), "/") {
        return Err(SaltError::NotAbsolute);
    }
    if !str_ends_with(suffix.as_str(), ".sls") {
        return Err(SaltError::BadStateName);
    }
    let total = suffix.as_str().unicode_len();
    proof {
        reveal_strlit("/");
        reveal_strlit(".sls");
        assert(suffix@[0] == '/') by {
            assert(suffix@.subrange(0, 1int)[0] == suffix@[0]);
        }
        if suffix@.len() < 5 {
            let tail = suffix@.subrange(suffix@.len() - 4, suffix@.len() as int);
            assert(tail[0] == suffix@[0]);
            assert(tail[0] == '.');
        }
    }
    let body = suffix.as_str().substring_char(1, total - 4);
    let mut out = String::new();
    append_replaced(&mut out, body, '/', '.');
    Ok(out)
}

/// The target VMs the state sets name, in order of first appearance,
/// without repeats.
pub open spec fn spec_targets(cs: Seq<SlsVmComplement>) -> Seq<Seq<char>>
    decreases cs.len(),
{
    if cs.len() == 0 {
        Seq::empty()
    } else {
        let rest = spec_targets(cs.drop_last());
        if rest.contains(cs.last().target_vm@) {
            rest
        } else {
            rest.push(cs.last().target_vm@)
        }
    }
}

/// Every state the sets assign to target `t`, in order.
pub open spec fn spec_states_for(cs: Seq<SlsVmComplement>, t: Seq<char>) -> Seq<Seq<char>>
    decreases cs.len(),
{
    if cs.len() == 0 {
        Seq::empty()
    } else {
        let rest = spec_states_for(cs.drop_last(), t);
        if cs.last().target_vm@ == t {
            rest + cs.last().states.deep_view()
        } else {
            rest
        }
    }
}

/// The top file's lines for one target's states.
pub open spec fn spec_states_block(states: Seq<Seq<char>>) -> Seq<char>
    decreases states.len(),
{
    if states.len() == 0 {
        Seq::empty()
    } else {
        spec_states_block(states.drop_last()) + "    - "@ + states.last() + "\n"@
    }
}

/// The top file's block for one target: its quoted name, then its states.
pub open spec fn spec_target_block(t: Seq<char>, states: Seq<Seq<char>>) -> Seq<char> {
    "  '"@ + t + "':\n"@ + spec_states_block(states)
}

/// The blocks of the given targets, in order.
pub open spec fn spec_top_blocks(cs: Seq<SlsVmComplement>, targets: Seq<Seq<char>>) -> Seq<char>
    decreases targets.len(),
{
    if targets.len() == 0 {
        Seq::empty()
    } else {
        spec_top_blocks(cs, targets.drop_last()) + spec_target_block(
            targets.last(),
            spec_states_for(cs, targets.last()),
        )
    }
}

/// The whole top file: the banner, then one block per target, targets in
/// order of first appearance and each target's states in order.
pub open spec fn spec_top_content(cs: Seq<SlsVmComplement>) -> Seq<char> {
    "# Don't edit this file it will be overwritten\nbase:\n"@ + spec_top_blocks(
        cs,
        spec_targets(cs),
    )
}

proof fn lemma_states_block_concat(a: Seq<Seq<char>>, b: Seq<Seq<char>>)
    ensures
        spec_states_block(a + b) == spec_states_block(a) + spec_states_block(b),
    decreases b.len(),
{
    if b.len() == 0 {
        assert(a + b =~= a);
        assert(spec_states_block(a) + spec_states_block(b) =~= spec_states_block(a));
    } else {
        lemma_states_block_concat(a, b.drop_last());
        assert((a + b).drop_last() =~= a + b.drop_last());
        assert((a + b).last() == b.last());
        assert(spec_states_block(a + b) =~= spec_states_block(a) + spec_states_block(b));
    }
}

/// The target VMs the state sets name, in order of first appearance,
/// without repeats.
pub fn target_names(complements: &Vec<SlsVmComplement>) -> (targets: Vec<String>)
    ensures
        targets.deep_view() == spec_targets(complements@),
{
    let ghost cs = complements@;
    let mut targets: Vec<String> = Vec::new();
    proof {
        assert(cs.take(0) =~= Seq::<SlsVmComplement>::empty());
        assert(targets.deep_view() =~= spec_targets(cs.take(0)));
    }
    let mut i: usize = 0;
    while i < complements.len()
        invariant
            i <= cs.len(),
            cs == complements@,
            targets.deep_view() == spec_targets(cs.take(i as int)),
        decreases cs.len() - i,
    {
        let ghost prev = targets.deep_view();
        let t = &complements[i].target_vm;
        let mut seen = false;
        let mut j: usize = 0;
        while j < targets.len()
            invariant
                j <= targets@.len(),
                prev == targets.deep_view(),
                prev.len() == targets@.len(),
                seen ==> prev.contains(t@),
                !seen ==> forall|k: int| 0 <= k < j ==> prev[k] != t@,
            decreases targets@.len() - j,
        {
            if str_eq(targets[j].as_str(), t.as_str()) {
                proof {
                    assert(prev[j as int] == t@);
                }
                seen = true;
            }
            j = j + 1;
        }
        proof {
            if !seen {
                assert(!prev.contains(t@));
            }
            assert(cs.take(i + 1).drop_last() =~= cs.take(i as int));
            assert(cs.take(i + 1).last() == cs[i as int]);
        }
        if !seen {
            targets.push(t.clone());
            proof {
                assert(targets.deep_view() =~= prev.push(t@));
            }
        }
        i = i + 1;
    }
    proof {
        assert(cs.take(cs.len() as int) =~= cs);
    }
    targets
}

/// Build the top file that applies every generated state set: the banner,
/// then, for each target VM in order of first appearance, its quoted name
/// and all its states in order.
pub fn top_file_content(complements: &Vec<SlsVmComplement>) -> (content: String)
    ensures
        content@ == spec_top_content(complements@),
{
    let ghost cs = complements@;
    let targets = target_names(complements);
    let ghost all_targets = targets.deep_view();

    let mut content = ("# Don't edit this file it will be overwritten\nbase:\n").to_owned();
    proof {
        assert(content@ + spec_top_blocks(cs, all_targets.take(0)) =~= content@);
        assert(all_targets.take(0) =~= Seq::<Seq<char>>::empty());
    }
    let ghost banner = content@;
    let mut a: usize = 0;
    while a < targets.len()
        invariant
            a <= targets@.len(),
            cs == complements@,
            all_targets == targets.deep_view(),
            all_targets.len() == targets@.len(),
            content@ == banner + spec_top_blocks(cs, all_targets.take(a as int)),
        decreases targets@.len() - a,
    {
        let ghost t = all_targets[a as int];
        proof {
            assert(all_targets[a as int] == targets@[a as int]@);
        }
        let tvm = &targets[a];
        let ghost before = content@;
        content.append("  '");
        content.append(tvm.as_str());
        content.append("':\n");
        let ghost hdr = content@;
        proof {
            assert(hdr =~= before + ("  '"@ + t + "':\n"@));
            assert(cs.take(0) =~= Seq::<SlsVmComplement>::empty());
            assert(spec_states_for(cs.take(0), t) + Seq::<Seq<char>>::empty() =~= spec_states_for(
                cs.take(0),
                t,
            ));
        }
        let mut ci: usize = 0;
        while ci < complements.len()
            invariant
                ci <= cs.len(),
                cs == complements@,
                tvm@ == t,
                content@ == hdr + spec_states_block(spec_states_for(cs.take(ci as int), t)),
            decreases cs.len() - ci,
        {
            proof {
                assert(cs.take(ci + 1).drop_last() =~= cs.take(ci as int));
                assert(cs.take(ci + 1).last() == cs[ci as int]);
            }
            if str_eq(complements[ci].target_vm.as_str(), tvm.as_str()) {
                let states = &complements[ci].states;
                let ghost acc = spec_states_for(cs.take(ci as int), t);
                let mut si: usize = 0;
                proof {
                    assert(acc + states.deep_view().take(0) =~= acc);
                }
                while si < states.len()
                    invariant
                        si <= states@.len(),
                        states == &complements@[ci as int].states,
                        ci < cs.len(),
                        cs == complements@,
                        content@ == hdr + spec_states_block(
                            acc + states.deep_view().take(si as int),
                        ),
                    decreases states@.len() - si,
                {
                    let ghost mid = acc + states.deep_view().take(si as int);
                    content.append("    - ");
                    content.append(states[si].as_str());
                    content.append("\n");
                    proof {
                        let stepped = acc + states.deep_view().take(si + 1);
                        assert(stepped.drop_last() =~= mid);
                        assert(stepped.last() == states@[si as int]@);
                        assert(content@ =~= hdr + spec_states_block(stepped));
                    }
                    si = si + 1;
                }
                proof {
                    assert(states.deep_view().take(states@.len() as int) =~= states.deep_view());
                    assert(spec_states_for(cs.take(ci + 1), t) =~= acc + states.deep_view());
                }
            } else {
                proof {
                    assert(spec_states_for(cs.take(ci + 1), t) =~= spec_states_for(
                        cs.take(ci as int),
                        t,
                    ));
                }
            }
            ci = ci + 1;
        }
        proof {
            assert(cs.take(cs.len() as int) =~= cs);
            assert(all_targets.take(a + 1).drop_last() =~= all_targets.take(a as int));
            assert(all_targets.take(a + 1).last() == t);
            assert(content@ =~= banner + spec_top_blocks(cs, all_targets.take(a + 1)));
        }
        a = a + 1;
    }
    proof {
        assert(all_targets.take(all_targets.len() as int) =~= all_targets);
    }
    content
}

/// What one line of a `file_roots` listing contributes: a line whose
/// trimmed text begins with `- /` names a root — the text after the line's
/// first dash, trimmed, and cut at the first escape character of the
/// listing's terminal colouring. Any other line names nothing.
pub open spec fn spec_root_of_line(line: Seq<char>) -> Option<Seq<char>> {
    if spec_starts_with(spec_trim(line), "- /"@) && spec_find(line, '-') >= 0 {
        let rest = spec_trim(line.skip(spec_find(line, '-') + 1));
        let e = spec_find(rest, '\u{1b}');
        if e < 0 {
            Some(rest)
        } else {
            Some(rest.take(e))
        }
    } else {
        None
    }
}

/// The roots a listing's lines name, in order.
pub open spec fn spec_roots_of_lines(lines: Seq<Seq<char>>) -> Seq<Seq<char>>
    decreases lines.len(),
{
    if lines.len() == 0 {
        Seq::empty()
    } else {
        match spec_root_of_line(lines.first()) {
            Some(r) => seq![r] + spec_roots_of_lines(lines.drop_first()),
            None => spec_roots_of_lines(lines.drop_first()),
        }
    }
}

/// Read the configured Salt file roots out of the configuration listing, in
/// order of appearance.
pub fn parse_file_roots(output: &str) -> (roots: Vec<String>)
    ensures
        roots.deep_view() == spec_roots_of_lines(spec_lines(output@)),
{
    let lines = str_lines(output);
    let ghost all = lines.deep_view();
    let mut roots: Vec<String> = Vec::new();
    proof {
        assert(all.skip(0) =~= all);
        assert(roots.deep_view() =~= Seq::<Seq<char>>::empty());
        assert(roots.deep_view() + spec_roots_of_lines(all) =~= spec_roots_of_lines(all));
    }
    let mut i: usize = 0;
    while i < lines.len()
        invariant
            i <= lines@.len(),
            all == lines.deep_view(),
            all.len() == lines@.len(),
            spec_roots_of_lines(all) == roots.deep_view() + spec_roots_of_lines(
                all.skip(i as int),
            ),
        decreases lines@.len() - i,
    {
        let ghost prev = roots.deep_view();
        let line = &lines[i];
        proof {
            assert(all[i as int] == line@);
            assert(all.skip(i as int).first() == all[i as int]);
            assert(all.skip(i as int).drop_first() =~= all.skip(i + 1));
        }
        let trimmed = trim_str(line.as_str());
        let mut contributed = false;
        if str_starts_with(trimmed.as_str(), "- /") {
            match find_char_from(line.as_str(), 0, '-') {
                Some(d) => {
                    proof {
                        assert(line@.skip(0) =~= line@);
                    }
                    let len = line.as_str().unicode_len();
                    let rest = trim_str(line.as_str().substring_char(d + 1, len));
                    proof {
                        assert(line@.subrange(d + 1, len as int) =~= line@.skip(d + 1));
                    }
                    let root = match find_char_from(rest.as_str(), 0, '\u{1b}') {
                        Some(e) => {
                            proof {
                                assert(rest@.skip(0) =~= rest@);
                                assert(rest@.subrange(0, e as int) =~= rest@.take(e as int));
                            }
                            rest.as_str().substring_char(0, e).to_owned()
                        },
                        None => {
                            proof {
                                assert(rest@.skip(0) =~= rest@);
                            }
                            rest
                        },
                    };
                    proof {
                        assert(spec_root_of_line(line@) == Some(root@));
                    }
                    roots.push(root);
                    contributed = true;
                    proof {
                        assert(roots.deep_view() =~= prev.push(root@));
                        assert(prev + spec_roots_of_lines(all.skip(i as int))
                            =~= roots.deep_view() + spec_roots_of_lines(all.skip(i + 1)));
                    }
                },
                None => {
                    proof {
                        assert(line@.skip(0) =~= line@);
                    }
                },
            }
        }
        proof {
            if !contributed {
                assert(spec_root_of_line(line@) is None);
                assert(spec_roots_of_lines(all.skip(i as int)) == spec_roots_of_lines(
                    all.skip(i + 1),
                ));
            }
        }
        i = i + 1;
    }
    proof {
        assert(all.skip(i as int) =~= Seq::<Seq<char>>::empty());
        assert(roots.deep_view() + spec_roots_of_lines(all.skip(i as int)) =~= roots.deep_view());
    }
    roots
}

} // verus!
