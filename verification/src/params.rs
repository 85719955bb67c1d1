//! Expansion of the `$ARGS[a:b]` and `$MOUNTS[a:b]` placeholders in an app's
//! mount and parameter lists, and the completion of an app's configuration
//! with the command line's arguments.

use vstd::prelude::*;
use vstd::slice::slice_subrange;
use crate::config::{AppConfig, VmmConfig, guest_mount_location};
use crate::path::{file_name, path_file_name, path_join};
use crate::text::{
    chars_of, decimal_digit, is_decimal_digit, is_white_space, lemma_decimal_parse_roundtrip,
    parse_unsigned, parse_usize, string_from_chars, usize_to_decimal, white_space,
};

verus! {

/// The position after the run of white space that starts at `i`.
pub open spec fn skip_white_space(s: Seq<char>, i: int) -> int
    decreases s.len() - i,
{
    if 0 <= i < s.len() && is_white_space(s[i]) {
        skip_white_space(s, i + 1)
    } else {
        i
    }
}

/// The position after the run of decimal digits that starts at `i`.
pub open spec fn skip_digits(s: Seq<char>, i: int) -> int
    decreases s.len() - i,
{
    if 0 <= i < s.len() && is_decimal_digit(s[i]) {
        skip_digits(s, i + 1)
    } else {
        i
    }
}

/// The end of the bound that starts at `i` (an optional `-` and at least one
/// digit), or `i` itself when none starts there.
pub open spec fn bound_end(s: Seq<char>, i: int) -> int {
    let j = if 0 <= i < s.len() && s[i] == '-' {
        i + 1
    } else {
        i
    };
    let k = skip_digits(s, j);
    if k > j {
        k
    } else {
        i
    }
}

/// The text between `i` and `j`, when it is not empty.
pub open spec fn group(s: Seq<char>, i: int, j: int) -> Option<Seq<char>> {
    if j > i {
        Some(s.subrange(i, j))
    } else {
        None
    }
}

/// The bounds of the placeholder `$<key>[<from>:<to>]` when `t` is one, and
/// `None` when it is not. White space may surround each bound; each bound is
/// optional and is an optional `-` followed by decimal digits; the whole text
/// must be the placeholder.
pub open spec fn placeholder_bounds(key: Seq<char>, t: Seq<char>) -> Option<
    (Option<Seq<char>>, Option<Seq<char>>),
> {
    let head = seq!['$'] + key + seq!['['];
    if t.len() > head.len() && t.take(head.len() as int) == head && t.last() == ']' {
        let s = t.subrange(head.len() as int, t.len() - 1);
        let a = skip_white_space(s, 0);
        let b = bound_end(s, a);
        let c = skip_white_space(s, b);
        if c < s.len() && s[c] == ':' {
            let d = skip_white_space(s, c + 1);
            let e = bound_end(s, d);
            let f = skip_white_space(s, e);
            if f == s.len() {
                Some((group(s, a, b), group(s, d, e)))
            } else {
                None
            }
        } else {
            None
        }
    } else {
        None
    }
}

/// The keyword of the placeholder that selects command-line arguments.
pub open spec fn args_key() -> Seq<char> {
    seq!['A', 'R', 'G', 'S']
}

/// The keyword of the placeholder that selects mounts.
pub open spec fn mounts_key() -> Seq<char> {
    seq!['M', 'O', 'U', 'N', 'T', 'S']
}

/// The two bounds of a placeholder, as written.
#[derive(Debug, PartialEq)]
pub struct PlaceholderCaptures {
    pub from: Option<String>,
    pub to: Option<String>,
}

impl View for PlaceholderCaptures {
    type V = (Option<Seq<char>>, Option<Seq<char>>);

    open spec fn view(&self) -> (Option<Seq<char>>, Option<Seq<char>>) {
        (
            match self.from {
                Some(s) => Some(s@),
                None => None,
            },
            match self.to {
                Some(s) => Some(s@),
                None => None,
            },
        )
    }
}

/// Why a list of parameters could not be expanded.
#[derive(Debug, Clone, Copy, PartialEq, Eq, Structural)]
pub enum ParamError {
    /// A bound of a slice is not a number that fits in `usize`.
    InvalidSliceBound,
    /// A slice reaches past the end of the list it selects from.
    IndexOutOfRange { index: usize, len: usize },
    /// The argument at this index names no file that exists on the host.
    MissingArgFile { index: usize },
    /// The mount at this index has no final file name.
    NoFileName { index: usize },
}

/// The value of a bound: its number when written, `default` when left out.
pub open spec fn bound_value(g: Option<Seq<char>>, default: nat) -> Option<nat> {
    match g {
        Some(s) => parse_unsigned(s, usize::MAX as nat),
        None => Some(default),
    }
}

/// The half-open range a placeholder selects from a list of `len` items:
/// the start defaults to 0 and the end to `len`. `None` when a written bound
/// is not a number that fits in `usize`.
pub open spec fn slice_limits(c: (Option<Seq<char>>, Option<Seq<char>>), len: nat) -> Option<
    (nat, nat),
> {
    match (bound_value(c.0, 0), bound_value(c.1, len)) {
        (Some(f), Some(t)) => Some((f, t)),
        _ => None,
    }
}


/// The end of the run of white space that starts at `i`.
fn skip_white_space_at(s: &[char], i: usize) -> (r: usize)
    requires
        i <= s@.len(),
    ensures
        r == skip_white_space(s@, i as int),
        i <= r <= s@.len(),
{
    let mut j: usize = i;
    while j < s.len() && white_space(s[j])
        invariant
            i <= j <= s@.len(),
            skip_white_space(s@, j as int) == skip_white_space(s@, i as int),
        decreases s@.len() - j,
    {
        j = j + 1;
    }
    j
}

/// The end of the run of decimal digits that starts at `i`.
fn skip_digits_at(s: &[char], i: usize) -> (r: usize)
    requires
        i <= s@.len(),
    ensures
        r == skip_digits(s@, i as int),
        i <= r <= s@.len(),
{
    let mut j: usize = i;
    while j < s.len() && decimal_digit(s[j])
        invariant
            i <= j <= s@.len(),
            skip_digits(s@, j as int) == skip_digits(s@, i as int),
        decreases s@.len() - j,
    {
        j = j + 1;
    }
    j
}

/// The end of the bound that starts at `i`, or `i` when none starts there.
fn bound_end_at(s: &[char], i: usize) -> (r: usize)
    requires
        i <= s@.len(),
    ensures
        r == bound_end(s@, i as int),
        i <= r <= s@.len(),
{
    let j = if i < s.len() && s[i] == '-' {
        i + 1
    } else {
        i
    };
    let k = skip_digits_at(s, j);
    if k > j {
        k
    } else {
        i
    }
}

/// The text between `i` and `j` as a string, when it is not empty.
fn group_string(s: &[char], i: usize, j: usize) -> (r: Option<String>)
    requires
        i <= j <= s@.len(),
    ensures
        match r {
            Some(g) => group(s@, i as int, j as int) == Some(g@),
            None => group(s@, i as int, j as int) is None,
        },
{
    if j > i {
        let g = slice_subrange(s, i, j);
        Some(string_from_chars(g))
    } else {
        None
    }
}

/// Whether `t` starts with `$<key>[` and ends with `]`, with room for both.
fn has_placeholder_frame(key: &[char], t: &[char]) -> (r: bool)
    ensures
        r == ({
            let head = seq!['$'] + key@ + seq!['['];
            t@.len() > head.len() && t@.take(head.len() as int) == head && t@.last() == ']'
        }),
{
    let ghost head = seq!['$'] + key@ + seq!['['];
    let k = key.len();
    if t.len() < 2 || t.len() - 2 <= k {
        return false;
    }
    if t[0] != '$' || t[k + 1] != '[' || t[t.len() - 1] != ']' {
        if t[0] != '$' {
            assert(t@.take(head.len() as int)[0] != head[0]);
        }
        if t[k + 1] != '[' {
            assert(t@.take(head.len() as int)[k + 1] != head[k + 1]);
        }
        return false;
    }
    let mut i: usize = 0;
    while i < k
        invariant
            i <= k,
            k == key@.len(),
            t@.len() > k + 2,
            head == seq!['$'] + key@ + seq!['['],
            forall|j: int| 0 <= j < i ==> t@[j + 1] == key@[j],
        decreases k - i,
    {
        if t[i + 1] != key[i] {
            assert(t@.take(head.len() as int)[i + 1] != head[i + 1]);
            return false;
        }
        i = i + 1;
    }
    assert(t@.take(head.len() as int) =~= head);
    true
}

/// Matches `t` against the placeholder `$<key>[<from>:<to>]`.
fn match_placeholder_chars(key: &[char], t: &[char]) -> (r: Option<PlaceholderCaptures>)
    ensures
        match r {
            Some(c) => placeholder_bounds(key@, t@) == Some(c@),
            None => placeholder_bounds(key@, t@) is None,
        },
{
    if !has_placeholder_frame(key, t) {
        return None;
    }
    assert((seq!['$'] + key@ + seq!['[']).len() == key@.len() + 2);
    let n = t.len();
    let k = key.len();
    assert(n > k + 2);
    let s = slice_subrange(t, k + 2, n - 1);
    let a = skip_white_space_at(s, 0);
    let b = bound_end_at(s, a);
    let c = skip_white_space_at(s, b);
    if !(c < s.len() && s[c] == ':') {
        return None;
    }
    let d = skip_white_space_at(s, c + 1);
    let e = bound_end_at(s, d);
    let f = skip_white_space_at(s, e);
    if f != s.len() {
        return None;
    }
    let from = group_string(s, a, b);
    let to = group_string(s, d, e);
    Some(PlaceholderCaptures { from, to })
}

/// Matches `param` against the placeholder `$<key>[<from>:<to>]` and gives
/// its two bounds as written.
pub fn match_placeholder(key: &str, param: &str) -> (r: Option<PlaceholderCaptures>)
    ensures
        match r {
            Some(c) => placeholder_bounds(key@, param@) == Some(c@),
            None => placeholder_bounds(key@, param@) is None,
        },
{
    let k = chars_of(key);
    let t = chars_of(param);
    match_placeholder_chars(k.as_slice(), t.as_slice())
}

/// The half-open range that a placeholder's bounds select from a list of
/// `arg_len` items; `None` when a written bound is not a number that fits in
/// `usize`.
fn read_slice_limits(captures: &PlaceholderCaptures, arg_len: usize) -> (r: Option<(usize, usize)>)
    ensures
        match r {
            Some((f, t)) => slice_limits(captures@, arg_len as nat) == Some((f as nat, t as nat)),
            None => slice_limits(captures@, arg_len as nat) is None,
        },
{
    let from_text = match &captures.from {
        Some(s) => s.clone(),
        None => {
            proof {
                reveal_strlit("0");
            }
            "0".to_owned()
        },
    };
    let to_text = match &captures.to {
        Some(s) => s.clone(),
        None => usize_to_decimal(arg_len),
    };
    assert(captures.from is None ==> from_text@ =~= seq!['0']);
    assert(captures.from is Some ==> from_text@ == captures@.0->0);
    assert(captures.to is None ==> to_text@ == crate::text::decimal(arg_len as nat));
    assert(captures.to is Some ==> to_text@ == captures@.1->0);
    proof {
        lemma_decimal_parse_roundtrip(0, usize::MAX as nat);
        lemma_decimal_parse_roundtrip(arg_len as nat, usize::MAX as nat);
        assert(crate::text::decimal(0) =~= seq!['0']);
    }
    let from = parse_usize(&chars_of(from_text.as_str()));
    let to = parse_usize(&chars_of(to_text.as_str()));
    match (from, to) {
        (Some(f), Some(t)) => Some((f, t)),
        _ => None,
    }
}

/// Whether both written bounds of a placeholder are numbers that fit in
/// `usize`, so that `get_slice_limits` may be asked for its range.
pub fn valid_slice_limits(captures: &PlaceholderCaptures, arg_len: usize) -> (r: bool)
    ensures
        r == slice_limits(captures@, arg_len as nat) is Some,
{
    read_slice_limits(captures, arg_len).is_some()
}

/// The half-open range that a placeholder's bounds select from a list of
/// `arg_len` items: the start defaults to 0 and the end to `arg_len`.
pub fn get_slice_limits(captures: &PlaceholderCaptures, arg_len: usize) -> (r: (usize, usize))
    requires
        slice_limits(captures@, arg_len as nat) is Some,
    ensures
        slice_limits(captures@, arg_len as nat) == Some((r.0 as nat, r.1 as nat)),
{
    match read_slice_limits(captures, arg_len) {
        Some(limits) => limits,
        None => {
            assert(false);
            (0, 0)
        },
    }
}


/// `r` with `prefix` put before its items when it succeeded.
pub open spec fn prepend(
    prefix: Seq<Seq<char>>,
    r: Result<Seq<Seq<char>>, ParamError>,
) -> Result<Seq<Seq<char>>, ParamError> {
    match r {
        Ok(items) => Ok(prefix + items),
        Err(e) => Err(e),
    }
}

/// The arguments with indices `i..t`, each of which must exist on the host;
/// the first index that is past the end or names a missing file is the
/// error.
pub open spec fn take_args(args: Seq<Seq<char>>, exists: Seq<bool>, i: int, t: int) -> Result<
    Seq<Seq<char>>,
    ParamError,
>
    decreases t - i,
{
    if i >= t {
        Ok(Seq::empty())
    } else if i >= args.len() {
        Err(ParamError::IndexOutOfRange { index: i as usize, len: args.len() as usize })
    } else if !exists[i] {
        Err(ParamError::MissingArgFile { index: i as usize })
    } else {
        prepend(seq![args[i]], take_args(args, exists, i + 1, t))
    }
}

/// Where the guest sees the mounts with indices `i..t`; the first index that
/// is past the end or whose mount has no file name is the error.
pub open spec fn take_mounts(mounts: Seq<Seq<char>>, base: Seq<char>, i: int, t: int) -> Result<
    Seq<Seq<char>>,
    ParamError,
>
    decreases t - i,
{
    if i >= t {
        Ok(Seq::empty())
    } else if i >= mounts.len() {
        Err(ParamError::IndexOutOfRange { index: i as usize, len: mounts.len() as usize })
    } else if file_name(mounts[i]) is None {
        Err(ParamError::NoFileName { index: i as usize })
    } else {
        prepend(seq![path_join(base, file_name(mounts[i])->0)], take_mounts(mounts, base, i + 1, t))
    }
}

/// What one parameter expands to: the selected arguments for an `$ARGS`
/// placeholder, the guest locations of the selected mounts for a `$MOUNTS`
/// placeholder, and the parameter itself otherwise.
pub open spec fn expand_param(
    p: Seq<char>,
    args: Seq<Seq<char>>,
    exists: Seq<bool>,
    mounts: Seq<Seq<char>>,
    base: Seq<char>,
) -> Result<Seq<Seq<char>>, ParamError> {
    match placeholder_bounds(args_key(), p) {
        Some(c) => match slice_limits(c, args.len()) {
            Some((f, t)) => take_args(args, exists, f as int, t as int),
            None => Err(ParamError::InvalidSliceBound),
        },
        None => match placeholder_bounds(mounts_key(), p) {
            Some(c) => match slice_limits(c, mounts.len()) {
                Some((f, t)) => take_mounts(mounts, base, f as int, t as int),
                None => Err(ParamError::InvalidSliceBound),
            },
            None => Ok(seq![p]),
        },
    }
}

/// The expansions of all parameters, in order; the first error stops it.
pub open spec fn expand_all(
    params: Seq<Seq<char>>,
    args: Seq<Seq<char>>,
    exists: Seq<bool>,
    mounts: Seq<Seq<char>>,
    base: Seq<char>,
) -> Result<Seq<Seq<char>>, ParamError>
    decreases params.len(),
{
    if params.len() == 0 {
        Ok(Seq::empty())
    } else {
        match expand_param(params[0], args, exists, mounts, base) {
            Ok(h) => prepend(h, expand_all(params.drop_first(), args, exists, mounts, base)),
            Err(e) => Err(e),
        }
    }
}

/// The view of an expansion's outcome.
pub open spec fn expansion_view(r: Result<Vec<String>, ParamError>) -> Result<Seq<Seq<char>>, ParamError> {
    match r {
        Ok(v) => Ok(v.deep_view()),
        Err(e) => Err(e),
    }
}

proof fn lemma_prepend_push(a: Seq<Seq<char>>, x: Seq<char>, r: Result<Seq<Seq<char>>, ParamError>)
    ensures
        prepend(a.push(x), r) == prepend(a, prepend(seq![x], r)),
{
    if let Ok(items) = r {
        assert(a.push(x) + items =~= a + (seq![x] + items));
    }
}

proof fn lemma_prepend_concat(a: Seq<Seq<char>>, h: Seq<Seq<char>>, r: Result<Seq<Seq<char>>, ParamError>)
    ensures
        prepend(a + h, r) == prepend(a, prepend(h, r)),
{
    if let Ok(items) = r {
        assert((a + h) + items =~= a + (h + items));
    }
}

/// Appends the arguments with indices `from..to` to `out`.
fn push_args(
    out: &mut Vec<String>,
    args: &Vec<String>,
    arg_exists: &Vec<bool>,
    from: usize,
    to: usize,
) -> (r: Result<(), ParamError>)
    requires
        arg_exists@.len() == args@.len(),
    ensures
        prepend(old(out).deep_view(), take_args(args.deep_view(), arg_exists@, from as int, to as int))
            == (match r {
            Ok(()) => Ok(final(out).deep_view()),
            Err(e) => Err(e),
        }),
{
    let ghost dv = args.deep_view();
    let ghost whole = prepend(old(out).deep_view(), take_args(dv, arg_exists@, from as int, to as int));
    let mut i: usize = from;
    while i < to
        invariant
            from <= i <= to || (from >= to && i == from),
            arg_exists@.len() == args@.len(),
            dv == args.deep_view(),
            whole == prepend(out.deep_view(), take_args(dv, arg_exists@, i as int, to as int)),
            whole == prepend(old(out).deep_view(), take_args(args.deep_view(), arg_exists@, from as int, to as int)),
            dv.len() == args@.len(),
        decreases to - i,
    {
        if i >= args.len() {
            return Err(ParamError::IndexOutOfRange { index: i, len: args.len() });
        }
        if !arg_exists[i] {
            return Err(ParamError::MissingArgFile { index: i });
        }
        let ghost before = out.deep_view();
        out.push(args[i].clone());
        proof {
            assert(out.deep_view() =~= before.push(dv[i as int]));
            lemma_prepend_push(before, dv[i as int], take_args(dv, arg_exists@, i + 1, to as int));
        }
        i = i + 1;
    }
    assert(take_args(dv, arg_exists@, i as int, to as int) == Ok::<Seq<Seq<char>>, ParamError>(Seq::<Seq<char>>::empty()));
    assert(out.deep_view() + Seq::<Seq<char>>::empty() =~= out.deep_view());
    Ok(())
}

/// Appends the guest locations of the mounts with indices `from..to` to
/// `out`.
fn push_mounts(
    out: &mut Vec<String>,
    mounts: &Vec<String>,
    vmm_config: &VmmConfig,
    from: usize,
    to: usize,
) -> (r: Result<(), ParamError>)
    ensures
        prepend(
            old(out).deep_view(),
            take_mounts(mounts.deep_view(), vmm_config.app.mount_base@, from as int, to as int),
        ) == (match r {
            Ok(()) => Ok(final(out).deep_view()),
            Err(e) => Err(e),
        }),
{
    let ghost dv = mounts.deep_view();
    let ghost base = vmm_config.app.mount_base@;
    let ghost whole = prepend(old(out).deep_view(), take_mounts(dv, base, from as int, to as int));
    let mut i: usize = from;
    while i < to
        invariant
            from <= i <= to || (from >= to && i == from),
            dv == mounts.deep_view(),
            base == vmm_config.app.mount_base@,
            whole == prepend(out.deep_view(), take_mounts(dv, base, i as int, to as int)),
            whole == prepend(
                old(out).deep_view(),
                take_mounts(mounts.deep_view(), vmm_config.app.mount_base@, from as int, to as int),
            ),
            dv.len() == mounts@.len(),
        decreases to - i,
    {
        if i >= mounts.len() {
            return Err(ParamError::IndexOutOfRange { index: i, len: mounts.len() });
        }
        let mount = mounts[i].as_str();
        if path_file_name(mount).is_none() {
            return Err(ParamError::NoFileName { index: i });
        }
        let location = guest_mount_location(mount, vmm_config);
        let ghost before = out.deep_view();
        out.push(location);
        proof {
            assert(out.deep_view() =~= before.push(path_join(base, file_name(dv[i as int])->0)));
            lemma_prepend_push(
                before,
                path_join(base, file_name(dv[i as int])->0),
                take_mounts(dv, base, i + 1, to as int),
            );
        }
        i = i + 1;
    }
    assert(take_mounts(dv, base, i as int, to as int) == Ok::<Seq<Seq<char>>, ParamError>(Seq::<Seq<char>>::empty()));
    assert(out.deep_view() + Seq::<Seq<char>>::empty() =~= out.deep_view());
    Ok(())
}

/// Appends the expansion of one parameter to `out`.
fn push_expansion(
    out: &mut Vec<String>,
    param: &String,
    args: &Vec<String>,
    mounts: &Vec<String>,
    vmm_config: &VmmConfig,
    arg_exists: &Vec<bool>,
) -> (r: Result<(), ParamError>)
    requires
        arg_exists@.len() == args@.len(),
    ensures
        prepend(
            old(out).deep_view(),
            expand_param(param@, args.deep_view(), arg_exists@, mounts.deep_view(), vmm_config.app.mount_base@),
        ) == (match r {
            Ok(()) => Ok(final(out).deep_view()),
            Err(e) => Err(e),
        }),
{
    let p = param.as_str();
    proof {
        reveal_strlit("ARGS");
        reveal_strlit("MOUNTS");
    }
    assert("ARGS"@ =~= args_key());
    assert("MOUNTS"@ =~= mounts_key());
    match match_placeholder("ARGS", p) {
        Some(c) => match read_slice_limits(&c, args.len()) {
            Some((f, t)) => push_args(out, args, arg_exists, f, t),
            None => Err(ParamError::InvalidSliceBound),
        },
        None => match match_placeholder("MOUNTS", p) {
            Some(c) => match read_slice_limits(&c, mounts.len()) {
                Some((f, t)) => push_mounts(out, mounts, vmm_config, f, t),
                None => Err(ParamError::InvalidSliceBound),
            },
            None => {
                let ghost before = out.deep_view();
                out.push(param.clone());
                assert(out.deep_view() =~= before + seq![param@]);
                Ok(())
            },
        },
    }
}

/// Expands the placeholders in `params` against the arguments `args` and
/// the mounts `mounts`; the first error stops it.
fn try_expand_list(
    params: &Vec<String>,
    args: &Vec<String>,
    mounts: &Vec<String>,
    vmm_config: &VmmConfig,
    arg_exists: &Vec<bool>,
) -> (r: Result<Vec<String>, ParamError>)
    requires
        arg_exists@.len() == args@.len(),
    ensures
        expansion_view(r) == expand_all(
            params.deep_view(),
            args.deep_view(),
            arg_exists@,
            mounts.deep_view(),
            vmm_config.app.mount_base@,
        ),
{
    let ghost pv = params.deep_view();
    let ghost av = args.deep_view();
    let ghost mv = mounts.deep_view();
    let ghost base = vmm_config.app.mount_base@;
    let ghost whole = expand_all(pv, av, arg_exists@, mv, base);
    let mut out: Vec<String> = Vec::new();
    let mut i: usize = 0;
    assert(pv.subrange(0, pv.len() as int) =~= pv);
    assert(Seq::<Seq<char>>::empty() + Seq::<Seq<char>>::empty() =~= Seq::<Seq<char>>::empty());
    while i < params.len()
        invariant
            i <= params@.len(),
            pv == params.deep_view(),
            pv.len() == params@.len(),
            av == args.deep_view(),
            mv == mounts.deep_view(),
            base == vmm_config.app.mount_base@,
            arg_exists@.len() == args@.len(),
            whole == prepend(
                out.deep_view(),
                expand_all(pv.subrange(i as int, pv.len() as int), av, arg_exists@, mv, base),
            ),
            whole == expand_all(
                params.deep_view(),
                args.deep_view(),
                arg_exists@,
                mounts.deep_view(),
                vmm_config.app.mount_base@,
            ),
        decreases params@.len() - i,
    {
        let ghost before = out.deep_view();
        let ghost rest = pv.subrange(i as int, pv.len() as int);
        assert(rest[0] == params[i as int]@);
        assert(rest.drop_first() =~= pv.subrange(i + 1, pv.len() as int));
        match push_expansion(&mut out, &params[i], args, mounts, vmm_config, arg_exists) {
            Ok(()) => {
                proof {
                    let one = expand_param(rest[0], av, arg_exists@, mv, base);
                    if let Ok(h) = one {
                        assert(out.deep_view() =~= before + h);
                        lemma_prepend_concat(
                            before,
                            h,
                            expand_all(pv.subrange(i + 1, pv.len() as int), av, arg_exists@, mv, base),
                        );
                    }
                }
            },
            Err(e) => {
                return Err(e);
            },
        }
        i = i + 1;
    }
    assert(pv.subrange(i as int, pv.len() as int) =~= Seq::<Seq<char>>::empty());
    assert(out.deep_view() + Seq::<Seq<char>>::empty() =~= out.deep_view());
    Ok(out)
}

/// Whether the placeholders in `params` can be expanded against the app's
/// arguments and mounts, and, when they cannot, the first reason.
/// `arg_exists[i]` tells whether the file that the `i`-th argument names
/// exists on the host.
pub fn check_expansion(
    params: &Vec<String>,
    config: &AppConfig,
    vmm_config: &VmmConfig,
    arg_exists: &Vec<bool>,
) -> (r: Result<(), ParamError>)
    requires
        arg_exists@.len() == config.args@.len(),
    ensures
        r == (match expand_all(
            params.deep_view(),
            config.args.deep_view(),
            arg_exists@,
            config.mounts.deep_view(),
            vmm_config.app.mount_base@,
        ) {
            Ok(_) => Ok::<(), ParamError>(()),
            Err(e) => Err(e),
        }),
{
    match try_expand_list(params, &config.args, &config.mounts, vmm_config, arg_exists) {
        Ok(_) => Ok(()),
        Err(e) => Err(e),
    }
}

/// Expands the `$ARGS[a:b]` and `$MOUNTS[a:b]` placeholders in `params`
/// against the app's arguments and mounts. `arg_exists[i]` tells whether the
/// file that the `i`-th argument names exists on the host; the expansion must
/// succeed (`check_expansion` tells whether it does).
pub fn expand_params(
    params: &Vec<String>,
    config: &AppConfig,
    vmm_config: &VmmConfig,
    arg_exists: &Vec<bool>,
) -> (r: Vec<String>)
    requires
        arg_exists@.len() == config.args@.len(),
        expand_all(
            params.deep_view(),
            config.args.deep_view(),
            arg_exists@,
            config.mounts.deep_view(),
            vmm_config.app.mount_base@,
        ) is Ok,
    ensures
        expand_all(
            params.deep_view(),
            config.args.deep_view(),
            arg_exists@,
            config.mounts.deep_view(),
            vmm_config.app.mount_base@,
        ) == Ok::<Seq<Seq<char>>, ParamError>(r.deep_view()),
{
    match try_expand_list(params, &config.args, &config.mounts, vmm_config, arg_exists) {
        Ok(v) => v,
        Err(_) => {
            assert(false);
            Vec::new()
        },
    }
}


/// The argument, mount and parameter lists of an app's configuration once
/// the command line's arguments are added and the placeholders expanded:
/// first the mounts (against the configured mounts), then the parameters
/// (against the expanded mounts).
pub open spec fn completed_lists(
    config: AppConfig,
    app_args: Seq<Seq<char>>,
    exists: Seq<bool>,
    base: Seq<char>,
) -> Result<(Seq<Seq<char>>, Seq<Seq<char>>, Seq<Seq<char>>), ParamError> {
    let args = config.args.deep_view() + app_args;
    let mounts = config.mounts.deep_view();
    match expand_all(mounts, args, exists, mounts, base) {
        Err(e) => Err(e),
        Ok(m) => match expand_all(config.params.deep_view(), args, exists, m, base) {
            Err(e) => Err(e),
            Ok(p) => Ok((args, m, p)),
        },
    }
}

/// The app's arguments followed by the command line's.
fn append_args(args: &Vec<String>, app_args: &Vec<String>) -> (r: Vec<String>)
    ensures
        r.deep_view() == args.deep_view() + app_args.deep_view(),
{
    let mut r: Vec<String> = Vec::new();
    let mut i: usize = 0;
    while i < args.len()
        invariant
            i <= args@.len(),
            r.deep_view() == args.deep_view().take(i as int),
        decreases args@.len() - i,
    {
        let ghost before = r.deep_view();
        r.push(args[i].clone());
        assert(r.deep_view() =~= before.push(args[i as int]@));
        assert(args.deep_view().take(i + 1) =~= args.deep_view().take(i as int).push(args[i as int]@));
        i = i + 1;
    }
    let mut j: usize = 0;
    while j < app_args.len()
        invariant
            j <= app_args@.len(),
            r.deep_view() == args.deep_view() + app_args.deep_view().take(j as int),
        decreases app_args@.len() - j,
    {
        let ghost before = r.deep_view();
        r.push(app_args[j].clone());
        assert(r.deep_view() =~= before.push(app_args[j as int]@));
        assert(app_args.deep_view().take(j + 1) =~= app_args.deep_view().take(j as int).push(
            app_args[j as int]@,
        ));
        j = j + 1;
    }
    assert(args.deep_view().take(i as int) =~= args.deep_view());
    assert(app_args.deep_view().take(j as int) =~= app_args.deep_view());
    r
}

/// Whether an app's configuration can be completed with the command line's
/// arguments, and, when it cannot, the first reason. `arg_exists[i]` tells
/// whether the `i`-th argument of the completed list names a file that
/// exists on the host.
pub fn check_app_config(
    config: &AppConfig,
    app_args: &Vec<String>,
    vmm_config: &VmmConfig,
    arg_exists: &Vec<bool>,
) -> (r: Result<(), ParamError>)
    requires
        arg_exists@.len() == config.args@.len() + app_args@.len(),
    ensures
        r == (match completed_lists(*config, app_args.deep_view(), arg_exists@, vmm_config.app.mount_base@) {
            Ok(_) => Ok::<(), ParamError>(()),
            Err(e) => Err(e),
        }),
{
    let args = append_args(&config.args, app_args);
    match try_expand_list(&config.mounts, &args, &config.mounts, vmm_config, arg_exists) {
        Err(e) => Err(e),
        Ok(mounts) => match try_expand_list(&config.params, &args, &mounts, vmm_config, arg_exists) {
            Err(e) => Err(e),
            Ok(_) => Ok(()),
        },
    }
}

/// Completes an app's configuration: appends the command line's arguments to
/// its arguments, then expands the placeholders in its mounts and in its
/// parameters. `arg_exists[i]` tells whether the `i`-th argument of the
/// completed list names a file that exists on the host; the completion must
/// succeed (`check_app_config` tells whether it does).
pub fn load_app_config(
    config: AppConfig,
    app_args: &Vec<String>,
    vmm_config: &VmmConfig,
    arg_exists: &Vec<bool>,
) -> (c: AppConfig)
    requires
        arg_exists@.len() == config.args@.len() + app_args@.len(),
        completed_lists(config, app_args.deep_view(), arg_exists@, vmm_config.app.mount_base@) is Ok,
    ensures
        completed_lists(config, app_args.deep_view(), arg_exists@, vmm_config.app.mount_base@) == Ok::<
            (Seq<Seq<char>>, Seq<Seq<char>>, Seq<Seq<char>>),
            ParamError,
        >((c.args.deep_view(), c.mounts.deep_view(), c.params.deep_view())),
        c.args.deep_view() == config.args.deep_view() + app_args.deep_view(),
        c.version == config.version,
        c.kind == config.kind,
        c.name == config.name,
        c.vm_cid == config.vm_cid,
        c.rootfs == config.rootfs,
        c.vcpu_count == config.vcpu_count,
        c.memory == config.memory,
        c.display == config.display,
        c.networks == config.networks,
        c.permissions == config.permissions,
{
    let ghost original = config;
    let mut config = config;
    let args = append_args(&config.args, app_args);
    config.args = args;
    let mounts = expand_params(&config.mounts, &config, vmm_config, arg_exists);
    config.mounts = mounts;
    let params = expand_params(&config.params, &config, vmm_config, arg_exists);
    config.params = params;
    config
}

/// A parameter that is neither an `$ARGS` nor a `$MOUNTS` placeholder.
pub open spec fn is_plain_param(p: Seq<char>) -> bool {
    placeholder_bounds(args_key(), p) is None && placeholder_bounds(mounts_key(), p) is None
}

/// A list without placeholders expands to itself.
pub proof fn lemma_plain_params_unchanged(
    params: Seq<Seq<char>>,
    args: Seq<Seq<char>>,
    exists: Seq<bool>,
    mounts: Seq<Seq<char>>,
    base: Seq<char>,
)
    requires
        forall|i: int| 0 <= i < params.len() ==> is_plain_param(#[trigger] params[i]),
    ensures
        expand_all(params, args, exists, mounts, base) == Ok::<Seq<Seq<char>>, ParamError>(params),
    decreases params.len(),
{
    if params.len() > 0 {
        let rest = params.drop_first();
        assert forall|i: int| 0 <= i < rest.len() implies is_plain_param(#[trigger] rest[i]) by {
            assert(rest[i] == params[i + 1]);
        }
        lemma_plain_params_unchanged(rest, args, exists, mounts, base);
        assert(is_plain_param(params[0]));
        assert(expand_param(params[0], args, exists, mounts, base) == Ok::<Seq<Seq<char>>, ParamError>(
            seq![params[0]],
        ));
        assert(seq![params[0]] + rest =~= params);
    } else {
        assert(params =~= Seq::<Seq<char>>::empty());
    }
}

/// Expanding two lists one after the other is expanding their
/// concatenation.
pub proof fn lemma_expand_concat(
    p1: Seq<Seq<char>>,
    p2: Seq<Seq<char>>,
    args: Seq<Seq<char>>,
    exists: Seq<bool>,
    mounts: Seq<Seq<char>>,
    base: Seq<char>,
)
    ensures
        expand_all(p1 + p2, args, exists, mounts, base) == (match expand_all(p1, args, exists, mounts, base) {
            Ok(r1) => prepend(r1, expand_all(p2, args, exists, mounts, base)),
            Err(e) => Err(e),
        }),
    decreases p1.len(),
{
    if p1.len() == 0 {
        assert(p1 + p2 =~= p2);
        if let Ok(r2) = expand_all(p2, args, exists, mounts, base) {
            assert(Seq::<Seq<char>>::empty() + r2 =~= r2);
        }
    } else {
        let rest = p1.drop_first();
        lemma_expand_concat(rest, p2, args, exists, mounts, base);
        assert((p1 + p2)[0] == p1[0]);
        assert((p1 + p2).drop_first() =~= rest + p2);
        if let Ok(h) = expand_param(p1[0], args, exists, mounts, base) {
            if let Ok(r1) = expand_all(rest, args, exists, mounts, base) {
                lemma_prepend_concat(h, r1, expand_all(p2, args, exists, mounts, base));
            }
        }
    }
}

/// A range of arguments that all exist and lie within the list selects
/// exactly those arguments, in order.
pub proof fn lemma_args_range(args: Seq<Seq<char>>, exists: Seq<bool>, f: int, t: int)
    requires
        0 <= f <= t <= args.len(),
        forall|i: int| f <= i < t ==> #[trigger] exists[i],
    ensures
        take_args(args, exists, f, t) == Ok::<Seq<Seq<char>>, ParamError>(args.subrange(f, t)),
    decreases t - f,
{
    if f < t {
        lemma_args_range(args, exists, f + 1, t);
        assert(seq![args[f]] + args.subrange(f + 1, t) =~= args.subrange(f, t));
    } else {
        assert(args.subrange(f, t) =~= Seq::<Seq<char>>::empty());
    }
}

/// A range of mounts that lie within the list and all have file names
/// selects their guest locations, in order.
pub proof fn lemma_mounts_range(mounts: Seq<Seq<char>>, base: Seq<char>, f: int, t: int)
    requires
        0 <= f <= t <= mounts.len(),
        forall|i: int| f <= i < t ==> (#[trigger] file_name(mounts[i])) is Some,
    ensures
        take_mounts(mounts, base, f, t) == Ok::<Seq<Seq<char>>, ParamError>(
            mounts.subrange(f, t).map_values(|m: Seq<char>| path_join(base, file_name(m)->0)),
        ),
    decreases t - f,
{
    let loc = |m: Seq<char>| path_join(base, file_name(m)->0);
    if f < t {
        assert(file_name(mounts[f]) is Some);
        lemma_mounts_range(mounts, base, f + 1, t);
        assert(seq![loc(mounts[f])] + mounts.subrange(f + 1, t).map_values(loc) =~= mounts.subrange(
            f,
            t,
        ).map_values(loc));
    } else {
        assert(mounts.subrange(f, t).map_values(loc) =~= Seq::<Seq<char>>::empty());
    }
}

/// A written bound with a sign is never a valid bound: slices cannot count
/// from the end of the list.
pub proof fn lemma_negative_bound_rejected(s: Seq<char>)
    requires
        s.len() > 0,
        s[0] == '-',
    ensures
        bound_value(Some(s), 0) is None,
{
    let body = if s.len() > 1 && s[0] == '+' {
        s.drop_first()
    } else {
        s
    };
    assert(body == s);
    assert(!crate::text::is_ascii_digit(body[0]));
}


/// The completed argument list is the app's own arguments followed by the
/// command line's, each once and in order.
pub proof fn lemma_completed_args(
    config: AppConfig,
    app_args: Seq<Seq<char>>,
    exists: Seq<bool>,
    base: Seq<char>,
)
    ensures
        completed_lists(config, app_args, exists, base) matches Ok((args, _, _)) ==> args
            == config.args.deep_view() + app_args,
{
}

} // verus!
