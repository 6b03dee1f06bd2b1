//! Finding the value of a flag in a compiler command line.
use vstd::prelude::*;

verus! {

/// The string contents of each argument.
pub open spec fn args_view(args: Seq<String>) -> Seq<Seq<char>> {
    args.map_values(|s: String| s@)
}

/// The string contents of an optional argument.
pub open spec fn opt_view(o: Option<String>) -> Option<Seq<char>> {
    match o {
        Some(s) => Some(s@),
        None => None,
    }
}

/// Position of the first `=` at or after `i`, or the token's length if none follows.
pub open spec fn eq_pos_from(tok: Seq<char>, i: int) -> int
    decreases tok.len() - i,
{
    if i < 0 || i >= tok.len() {
        tok.len() as int
    } else if tok[i] == '=' {
        i
    } else {
        eq_pos_from(tok, i + 1)
    }
}

/// Position of the first `=` in a token, or its length if it has none.
pub open spec fn eq_pos(tok: Seq<char>) -> int {
    eq_pos_from(tok, 0)
}

/// The flag part of a token: everything before its first `=`.
pub open spec fn flag_of(tok: Seq<char>) -> Seq<char> {
    tok.take(eq_pos(tok))
}

/// The value written into a token after its first `=`, if it has one.
pub open spec fn inline_value(tok: Seq<char>) -> Option<Seq<char>> {
    if eq_pos(tok) < tok.len() {
        Some(tok.skip(eq_pos(tok) + 1))
    } else {
        None
    }
}

/// Which values of a flag are wanted.
pub enum Acceptance {
    /// Every value.
    Any,
    /// Only this value.
    Equals(String),
    /// Any value that is one of these.
    OneOf(Vec<String>),
}

impl Acceptance {
    pub open spec fn accepts(&self, v: Seq<char>) -> bool {
        match self {
            Acceptance::Any => true,
            Acceptance::Equals(s) => v == s@,
            Acceptance::OneOf(l) => args_view(l@).contains(v),
        }
    }

    /// Whether `v` is a wanted value.
    pub fn test(&self, v: &String) -> (r: bool)
        ensures
            r == self.accepts(v@),
    {
        match self {
            Acceptance::Any => true,
            Acceptance::Equals(s) => *s == *v,
            Acceptance::OneOf(l) => {
                let mut i: usize = 0;
                while i < l.len()
                    invariant
                        i <= l@.len(),
                        self.accepts(v@) == args_view(l@).contains(v@),
                        forall|j: int| 0 <= j < i ==> l@[j]@ != v@,
                    decreases l@.len() - i,
                {
                    if l[i] == *v {
                        assert(args_view(l@)[i as int] == v@);
                        assert(args_view(l@).contains(v@));
                        return true;
                    }
                    i += 1;
                }
                proof {
                    if args_view(l@).contains(v@) {
                        let j = choose|j: int| 0 <= j < args_view(l@).len() && args_view(l@)[j] == v@;
                        assert(l@[j]@ == v@);
                    }
                }
                false
            },
        }
    }
}

/// The value that a left-to-right scan from position `i` finds for `flag`.
///
/// A token whose flag part is `flag` offers the value after its `=`, or else
/// the next token, which is then consumed and never read as a flag. The first
/// offered value that `p` accepts is the result; a refused one is skipped.
pub open spec fn scan(args: Seq<Seq<char>>, flag: Seq<char>, p: spec_fn(Seq<char>) -> bool, i: int) -> Option<
    Seq<char>,
>
    decreases args.len() - i,
{
    if i < 0 || i >= args.len() {
        None
    } else if flag_of(args[i]) != flag {
        scan(args, flag, p, i + 1)
    } else {
        match inline_value(args[i]) {
            Some(v) => if p(v) {
                Some(v)
            } else {
                scan(args, flag, p, i + 1)
            },
            None => if i + 1 < args.len() {
                if p(args[i + 1]) {
                    Some(args[i + 1])
                } else {
                    scan(args, flag, p, i + 2)
                }
            } else {
                None
            },
        }
    }
}

/// The value of `flag` in `args`, as `arg_value` finds it.
pub open spec fn spec_arg_value(args: Seq<Seq<char>>, flag: Seq<char>, p: spec_fn(Seq<char>) -> bool) -> Option<
    Seq<char>,
> {
    scan(args, flag, p, 0)
}

/// The value that the token at `i` offers for `flag`: `None` unless it names
/// that flag, else its inline value, or else the token after it.
pub open spec fn offered(args: Seq<Seq<char>>, flag: Seq<char>, i: int) -> Option<Seq<char>> {
    if 0 <= i < args.len() && flag_of(args[i]) == flag {
        match inline_value(args[i]) {
            Some(v) => Some(v),
            None => if i + 1 < args.len() {
                Some(args[i + 1])
            } else {
                None
            },
        }
    } else {
        None
    }
}

/// Whether the token at `j` is taken as the value of a bare flag before it.
pub open spec fn consumed(args: Seq<Seq<char>>, flag: Seq<char>, j: int) -> bool {
    0 < j < args.len() && flag_of(args[j - 1]) == flag && inline_value(args[j - 1]) is None
}

/// Whether the token at `i` offers a value that `p` accepts.
pub open spec fn offers_accepted(args: Seq<Seq<char>>, flag: Seq<char>, p: spec_fn(Seq<char>) -> bool, i: int) -> bool {
    offered(args, flag, i) is Some && p(offered(args, flag, i)->0)
}

proof fn lemma_scan_finds_first(args: Seq<Seq<char>>, flag: Seq<char>, p: spec_fn(Seq<char>) -> bool, s: int)
    requires
        0 <= s,
    ensures
        scan(args, flag, p, s) is Some ==> exists|i: int|
            #![trigger offered(args, flag, i)]
            s <= i && offered(args, flag, i) == scan(args, flag, p, s) && p(
                scan(args, flag, p, s)->0,
            ) && forall|j: int|
                s <= j < i && #[trigger] offers_accepted(args, flag, p, j) ==> j > s
                    && consumed(args, flag, j),
    decreases args.len() - s,
{
    if s < args.len() {
        lemma_scan_finds_first(args, flag, p, s + 1);
        if s + 1 < args.len() {
            lemma_scan_finds_first(args, flag, p, s + 2);
        }
        if scan(args, flag, p, s) is Some {
            let r = scan(args, flag, p, s);
            if flag_of(args[s]) != flag {
                let i = choose|i: int|
                    #![trigger offered(args, flag, i)]
                    s + 1 <= i && offered(args, flag, i) == r && p(r->0) && forall|j: int|
                        s + 1 <= j < i && #[trigger] offers_accepted(args, flag, p, j) ==> j > s
                            + 1 && consumed(args, flag, j);
                assert(!offers_accepted(args, flag, p, s));
                assert(offered(args, flag, i) == r);
            } else if inline_value(args[s]) is Some {
                if p(inline_value(args[s])->0) {
                    assert(offered(args, flag, s) == r);
                } else {
                    let i = choose|i: int|
                        #![trigger offered(args, flag, i)]
                        s + 1 <= i && offered(args, flag, i) == r && p(r->0) && forall|
                            j: int,
                        |
                            s + 1 <= j < i && #[trigger] offers_accepted(args, flag, p, j) ==> j
                                > s + 1 && consumed(args, flag, j);
                    assert(!offers_accepted(args, flag, p, s));
                    assert(offered(args, flag, i) == r);
                }
            } else if p(args[s + 1]) {
                assert(offered(args, flag, s) == r);
            } else {
                let i = choose|i: int|
                    #![trigger offered(args, flag, i)]
                    s + 2 <= i && offered(args, flag, i) == r && p(r->0) && forall|j: int|
                        s + 2 <= j < i && #[trigger] offers_accepted(args, flag, p, j) ==> j > s
                            + 2 && consumed(args, flag, j);
                assert(!offers_accepted(args, flag, p, s));
                assert(consumed(args, flag, s + 1));
                assert(offered(args, flag, i) == r);
            }
        }
    }
}

/// For every predicate: the value found for a flag is the first accepted one: it is accepted, some
/// token offers it, and every token before that one that offers an accepted
/// value is only the value of a bare flag before it, not an occurrence of the
/// flag. Where no token offers an accepted value, nothing is found.
pub proof fn lemma_arg_value_first_accepted(args: Seq<Seq<char>>, flag: Seq<char>, p: spec_fn(Seq<char>) -> bool)
    ensures
        spec_arg_value(args, flag, p) is Some ==> exists|i: int|
            #![trigger offered(args, flag, i)]
            offered(args, flag, i) == spec_arg_value(args, flag, p) && p(
                spec_arg_value(args, flag, p)->0,
            ) && forall|j: int|
                0 <= j < i && #[trigger] offers_accepted(args, flag, p, j) ==> consumed(
                    args,
                    flag,
                    j,
                ),
        (forall|i: int| !#[trigger] offers_accepted(args, flag, p, i)) ==> spec_arg_value(
            args,
            flag,
            p,
        ) is None,
{
    lemma_scan_finds_first(args, flag, p, 0);
    if spec_arg_value(args, flag, p) is Some {
        let i = choose|i: int|
            #![trigger offered(args, flag, i)]
            0 <= i && offered(args, flag, i) == spec_arg_value(args, flag, p) && p(
                spec_arg_value(args, flag, p)->0,
            ) && forall|j: int|
                0 <= j < i && #[trigger] offers_accepted(args, flag, p, j) ==> j > 0 && consumed(
                    args,
                    flag,
                    j,
                );
        assert(offers_accepted(args, flag, p, i));
    }
}

proof fn lemma_eq_pos_skip(tok: Seq<char>, i: int)
    requires
        0 <= i <= tok.len(),
        forall|j: int| 0 <= j < i ==> tok[j] != '=',
    ensures
        eq_pos(tok) == eq_pos_from(tok, i),
    decreases i,
{
    if i > 0 {
        lemma_eq_pos_skip(tok, i - 1);
    }
}

/// Position of the first `=` in `tok`, or its length.
fn find_eq(tok: &str) -> (r: usize)
    ensures
        r == eq_pos(tok@),
        r <= tok@.len(),
{
    let n = tok.unicode_len();
    let mut i: usize = 0;
    while i < n && tok.get_char(i) != '='
        invariant
            n == tok@.len(),
            i <= n,
            forall|j: int| 0 <= j < i ==> tok@[j] != '=',
        decreases n - i,
    {
        i += 1;
    }
    proof {
        lemma_eq_pos_skip(tok@, i as int);
    }
    i
}

/// The value of the first occurrence of `find_arg` in `args` that `acc`
/// accepts, written `find_arg=value` or `find_arg value`.
pub fn arg_value(args: &Vec<String>, find_arg: &str, acc: &Acceptance) -> (r: Option<String>)
    ensures
        opt_view(r) == spec_arg_value(args_view(args@), find_arg@, |v: Seq<char>| acc.accepts(v)),
{
    let ghost a = args_view(args@);
    let ghost p = |v: Seq<char>| acc.accepts(v);
    let flag = find_arg.to_owned();
    let mut i: usize = 0;
    while i < args.len()
        invariant
            a == args_view(args@),
            flag@ == find_arg@,
            i <= args@.len(),
            p == (|v: Seq<char>| acc.accepts(v)),
            scan(a, find_arg@, p, 0) == scan(a, find_arg@, p, i as int),
        decreases args@.len() - i,
    {
        let tok: &str = args[i].as_str();
        assert(tok@ == a[i as int]);
        let n = tok.unicode_len();
        let k = find_eq(tok);
        let head = tok.substring_char(0, k).to_owned();
        assert(head@ == flag_of(a[i as int]));
        if head != flag {
            i += 1;
        } else if k < n {
            let v = tok.substring_char(k + 1, n).to_owned();
            assert(v@ == tok@.skip(k + 1));
            if acc.test(&v) {
                return Some(v);
            }
            i += 1;
        } else if i + 1 < args.len() {
            let v = args[i + 1].clone();
            assert(v@ == a[i + 1]);
            if acc.test(&v) {
                return Some(v);
            }
            i += 2;
        } else {
            return None;
        }
    }
    None
}

/// The file stem of a path: its file name without the extension.
pub uninterp spec fn file_stem_of(path: Seq<char>) -> Option<Seq<char>>;

/// Relies on `std::path::Path::file_stem`, whose result depends on the path
/// alone; a `&str` path has a stem that is valid UTF-8, so nothing is lost.
#[verifier::external_body]
fn file_stem(path: &str) -> (r: Option<String>)
    ensures
        opt_view(r) == file_stem_of(path@),
{
    std::path::Path::new(path).file_stem().map(|s| s.to_string_lossy().into_owned())
}

/// Whether the argument at position 1 names the compiler itself, which a
/// build tool passes to its wrapper in front of the compiler's own arguments.
pub open spec fn names_compiler(args: Seq<Seq<char>>) -> bool {
    args.len() > 1 && file_stem_of(args[1]) == Some("rustc"@)
}

/// The command line handed on to the compiler: `args` without a leading
/// compiler path after the program name, then the sysroot flag and its value.
pub open spec fn spec_compiler_args(args: Seq<Seq<char>>, sysroot: Seq<char>) -> Seq<Seq<char>> {
    let kept = if names_compiler(args) {
        args.remove(1)
    } else {
        args
    };
    kept.push("--sysroot"@).push(sysroot)
}

/// Makes the compiler's command line from the wrapper's: drops a compiler
/// path that stands in position 1 and appends `--sysroot <sysroot>`.
pub fn compiler_args(args: Vec<String>, sysroot: String) -> (r: Vec<String>)
    ensures
        args_view(r@) == spec_compiler_args(args_view(args@), sysroot@),
{
    let mut args = args;
    let ghost orig = args@;
    if args.len() > 1 {
        let stem = file_stem(args[1].as_str());
        let rustc = "rustc".to_owned();
        let is_rustc = match stem {
            Some(st) => st == rustc,
            None => false,
        };
        if is_rustc {
            args.remove(1);
            assert(args_view(args@) =~= args_view(orig).remove(1));
        }
    }
    let ghost before = args@;
    args.push("--sysroot".to_owned());
    args.push(sysroot);
    assert(args_view(args@) =~= args_view(before).push("--sysroot"@).push(sysroot@));
    args
}

} // verus!
