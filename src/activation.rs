//! Deciding whether a compilation runs the interface extraction pass.
use vstd::prelude::*;

use crate::args::{arg_value, args_view, opt_view, spec_arg_value, Acceptance};

verus! {

/// The pieces of `s` between its commas, in order; a string without a comma
/// is one piece, so the empty string gives one empty piece.
pub open spec fn split_commas(s: Seq<char>) -> Seq<Seq<char>>
    decreases s.len(),
{
    if s.len() == 0 {
        seq![Seq::<char>::empty()]
    } else {
        let init = split_commas(s.drop_last());
        if s.last() == ',' {
            init.push(Seq::<char>::empty())
        } else {
            init.update(init.len() - 1, init.last().push(s.last()))
        }
    }
}

proof fn lemma_split_nonempty(s: Seq<char>)
    ensures
        split_commas(s).len() >= 1,
    decreases s.len(),
{
    if s.len() > 0 {
        lemma_split_nonempty(s.drop_last());
    }
}

/// The crate names that the allow-list variable holds: its comma-separated
/// pieces, or none where the variable is unset.
pub fn allow_list(var: Option<&str>) -> (r: Vec<String>)
    ensures
        var is None ==> r@.len() == 0,
        var is Some ==> args_view(r@) == split_commas(var->0@),
{
    let mut parts: Vec<String> = Vec::new();
    match var {
        None => parts,
        Some(s) => {
            let n = s.unicode_len();
            let mut start: usize = 0;
            let mut i: usize = 0;
            assert(s@.take(0) =~= Seq::<char>::empty());
            assert(args_view(parts@).push(s@.subrange(0, 0)) =~~= seq![Seq::<char>::empty()]);
            while i < n
                invariant
                    n == s@.len(),
                    start <= i <= n,
                    split_commas(s@.take(i as int)) == args_view(parts@).push(
                        s@.subrange(start as int, i as int),
                    ),
                decreases n - i,
            {
                let c = s.get_char(i);
                proof {
                    assert(s@.take(i + 1).drop_last() =~= s@.take(i as int));
                    assert(s@.take(i + 1).last() == c);
                    lemma_split_nonempty(s@.take(i as int));
                }
                if c == ',' {
                    let piece = s.substring_char(start, i).to_owned();
                    let ghost prev = parts@;
                    parts.push(piece);
                    start = i + 1;
                    proof {
                        assert(args_view(parts@) =~= args_view(prev).push(piece@));
                        assert(s@.subrange(start as int, start as int) =~= Seq::<char>::empty());
                        assert(split_commas(s@.take(i + 1)) =~~= args_view(parts@).push(
                            s@.subrange(start as int, i + 1),
                        ));
                    }
                } else {
                    assert(s@.subrange(start as int, i + 1) =~= s@.subrange(start as int, i as int).push(c));
                    assert(split_commas(s@.take(i + 1)) =~~= args_view(parts@).push(
                        s@.subrange(start as int, i + 1),
                    ));
                }
                i += 1;
            }
            let last = s.substring_char(start, n).to_owned();
            let ghost prev = parts@;
            parts.push(last);
            assert(args_view(parts@) =~= args_view(prev).push(last@));
            assert(s@.take(n as int) =~= s@);
            parts
        },
    }
}

/// The flag that names the crate being compiled.
pub open spec fn crate_name_flag() -> Seq<char> {
    "--crate-name"@
}

/// The flag that names the kind of artifact being built.
pub open spec fn crate_type_flag() -> Seq<char> {
    "--crate-type"@
}

/// The configuration flag.
pub open spec fn cfg_flag() -> Seq<char> {
    "--cfg"@
}

/// The crate type of an executable.
pub open spec fn bin_type() -> Seq<char> {
    "bin"@
}

/// The configuration value that turns on test mode.
pub open spec fn test_mode_cfg() -> Seq<char> {
    "feature=\"mantle-build-test\""@
}

/// What one compilation's command line says about extraction. It is made
/// once, from the arguments and the allow-list, and never changed.
pub struct ActivationContext {
    /// The crate's name, where it is on the allow-list.
    pub crate_name: Option<String>,
    /// The crate's name as the command line gives it, listed or not.
    pub unit_name: Option<String>,
    /// Whether the crate is built as an executable.
    pub is_bin: bool,
    /// Whether test mode is configured.
    pub is_testing: bool,
}

impl ActivationContext {
    /// The context that `args` and `allow` determine.
    pub open spec fn spec_from(self, args: Seq<Seq<char>>, allow: Seq<Seq<char>>) -> bool {
        &&& opt_view(self.crate_name) == spec_arg_value(
            args,
            crate_name_flag(),
            |v: Seq<char>| allow.contains(v),
        )
        &&& opt_view(self.unit_name) == spec_arg_value(args, crate_name_flag(), |v: Seq<char>| true)
        &&& self.is_bin == spec_arg_value(args, crate_type_flag(), |v: Seq<char>| v == bin_type()) is Some
        &&& self.is_testing == spec_arg_value(args, cfg_flag(), |v: Seq<char>| v == test_mode_cfg()) is Some
    }

    pub open spec fn spec_do_gen(&self) -> bool {
        (self.crate_name is Some && self.is_bin) || self.is_testing
    }

    /// Reads the context from a command line, with `allow` the crate names
    /// for which extraction is wanted.
    pub fn from_args(args: &Vec<String>, allow: Vec<String>) -> (r: ActivationContext)
        ensures
            r.spec_from(args_view(args@), args_view(allow@)),
    {
        let ghost allow_view = args_view(allow@);
        let listed = Acceptance::OneOf(allow);
        let crate_name = arg_value(args, "--crate-name", &listed);
        let unit_name = arg_value(args, "--crate-name", &Acceptance::Any);
        let bin = Acceptance::Equals("bin".to_owned());
        let is_bin = arg_value(args, "--crate-type", &bin).is_some();
        let testing = Acceptance::Equals("feature=\"mantle-build-test\"".to_owned());
        let is_testing = arg_value(args, "--cfg", &testing).is_some();
        proof {
            assert((|v: Seq<char>| listed.accepts(v)) =~= (|v: Seq<char>| allow_view.contains(v)));
            assert((|v: Seq<char>| Acceptance::Any.accepts(v)) =~= (|v: Seq<char>| true));
            assert((|v: Seq<char>| bin.accepts(v)) =~= (|v: Seq<char>| v == bin_type()));
            assert((|v: Seq<char>| testing.accepts(v)) =~= (|v: Seq<char>| v == test_mode_cfg()));
        }
        ActivationContext { crate_name, unit_name, is_bin, is_testing }
    }

    /// Whether the extraction pass runs: for a listed crate built as an
    /// executable, or in test mode.
    pub fn do_gen(&self) -> (r: bool)
        ensures
            r == self.spec_do_gen(),
    {
        (self.crate_name.is_some() && self.is_bin) || self.is_testing
    }
}

} // verus!
