//! Command-line options of the word-list and dictionary tools.
use vstd::prelude::*;
use vstd::string::StringExecFns;
use crate::decimal::{parse_usize, parsed_usize};
use crate::text::{str_eq, views_of};

verus! {

/// What an option does.
#[derive(Clone, Copy, Debug, PartialEq, Eq, Structural)]
pub enum OptionKind {
    /// Takes the argument that follows it.
    Value,
    /// Stands alone and turns something on.
    Switch,
    /// Asks for the usage text.
    Help,
}

/// An option: its spellings (the first is the one error messages name), what
/// it does, and, for one that takes a value, how that value is described
/// ("a path", "a number").
pub struct CliOption {
    pub names: Vec<String>,
    pub kind: OptionKind,
    pub hint: String,
}

/// How a command line was read.
pub enum CliOutcome {
    /// For each option, the last value given (a switch given reads as an empty value).
    Run(Vec<Option<String>>),
    Help,
    /// The option with this index came last, without its value.
    MissingValue(usize),
    /// An argument that no option is spelled as.
    Unknown(String),
}

pub enum OutcomeView {
    Run(Seq<Option<Seq<char>>>),
    Help,
    MissingValue(int),
    Unknown(Seq<char>),
}

pub open spec fn opt_views(v: Seq<Option<String>>) -> Seq<Option<Seq<char>>> {
    v.map_values(
        |o: Option<String>|
            match o {
                Some(s) => Some(s@),
                None => None,
            },
    )
}

impl View for CliOutcome {
    type V = OutcomeView;

    open spec fn view(&self) -> OutcomeView {
        match self {
            CliOutcome::Run(v) => OutcomeView::Run(opt_views(v@)),
            CliOutcome::Help => OutcomeView::Help,
            CliOutcome::MissingValue(k) => OutcomeView::MissingValue(*k as int),
            CliOutcome::Unknown(a) => OutcomeView::Unknown(a@),
        }
    }
}

pub open spec fn spelled_as(o: CliOption, arg: Seq<char>) -> bool {
    views_of(o.names@).contains(arg)
}

/// The first option, from index `k` on, spelled as `arg`.
pub open spec fn option_from(opts: Seq<CliOption>, arg: Seq<char>, k: int) -> Option<int>
    decreases opts.len() - k,
{
    if k < 0 || k >= opts.len() {
        None
    } else if spelled_as(opts[k], arg) {
        Some(k)
    } else {
        option_from(opts, arg, k + 1)
    }
}

/// Reads the arguments from position `i` on, with `acc` the values so far.
pub open spec fn read_from(
    args: Seq<Seq<char>>,
    opts: Seq<CliOption>,
    i: int,
    acc: Seq<Option<Seq<char>>>,
) -> OutcomeView
    decreases args.len() - i,
{
    if i < 0 || i >= args.len() {
        OutcomeView::Run(acc)
    } else {
        match option_from(opts, args[i], 0) {
            None => OutcomeView::Unknown(args[i]),
            Some(k) => match opts[k].kind {
                OptionKind::Help => OutcomeView::Help,
                OptionKind::Switch => read_from(args, opts, i + 1, acc.update(k, Some(Seq::empty()))),
                OptionKind::Value => if i + 1 < args.len() {
                    read_from(args, opts, i + 2, acc.update(k, Some(args[i + 1])))
                } else {
                    OutcomeView::MissingValue(k)
                },
            },
        }
    }
}

/// What a command line gives: its first argument is the program's name.
pub open spec fn cli_outcome(args: Seq<Seq<char>>, opts: Seq<CliOption>) -> OutcomeView {
    read_from(args, opts, 1, Seq::new(opts.len(), |k: int| None))
}

fn spelled(o: &CliOption, arg: &str) -> (r: bool)
    ensures
        r == spelled_as(*o, arg@),
{
    let mut j: usize = 0;
    while j < o.names.len()
        invariant
            j <= o.names@.len(),
            forall|m: int| 0 <= m < j ==> (#[trigger] o.names@[m])@ != arg@,
        decreases o.names@.len() - j,
    {
        if str_eq(o.names[j].as_str(), arg) {
            assert(views_of(o.names@)[j as int] == arg@);
            return true;
        }
        j = j + 1;
    }
    assert forall|m: int| 0 <= m < views_of(o.names@).len() implies views_of(o.names@)[m] != arg@ by {
        assert(views_of(o.names@)[m] == o.names@[m]@);
    }
    false
}

fn find_option(opts: &Vec<CliOption>, arg: &str) -> (r: Option<usize>)
    ensures
        match r {
            Some(k) => option_from(opts@, arg@, 0) == Some(k as int) && k < opts@.len(),
            None => option_from(opts@, arg@, 0) is None,
        },
{
    let mut k: usize = 0;
    while k < opts.len()
        invariant
            k <= opts@.len(),
            option_from(opts@, arg@, 0) == option_from(opts@, arg@, k as int),
        decreases opts@.len() - k,
    {
        if spelled(&opts[k], arg) {
            return Some(k);
        }
        k = k + 1;
    }
    None
}

/// Reads a command line against a list of options.
pub fn parse_cli(args: &Vec<String>, opts: &Vec<CliOption>) -> (r: CliOutcome)
    ensures
        r@ == cli_outcome(views_of(args@), opts@),
{
    let ghost a = views_of(args@);
    let mut acc: Vec<Option<String>> = Vec::new();
    let mut k: usize = 0;
    while k < opts.len()
        invariant
            k <= opts@.len(),
            acc@.len() == k,
            forall|m: int| 0 <= m < k ==> acc@[m] is None,
        decreases opts@.len() - k,
    {
        acc.push(None);
        k = k + 1;
    }
    assert(opt_views(acc@) =~= Seq::new(opts@.len(), |k: int| None::<Seq<char>>));
    let mut i: usize = 1;
    while i < args.len()
        invariant
            1 <= i,
            a == views_of(args@),
            acc@.len() == opts@.len(),
            read_from(a, opts@, i as int, opt_views(acc@)) == cli_outcome(a, opts@),
        decreases args@.len() - i,
    {
        assert(a[i as int] == args@[i as int]@);
        match find_option(opts, args[i].as_str()) {
            None => {
                return CliOutcome::Unknown(args[i].clone());
            },
            Some(k) => {
                match opts[k].kind {
                    OptionKind::Help => {
                        return CliOutcome::Help;
                    },
                    OptionKind::Switch => {
                        let ghost before = opt_views(acc@);
                        acc.set(k, Some(String::new()));
                        assert(opt_views(acc@) =~= before.update(k as int, Some(Seq::<char>::empty())));
                        i = i + 1;
                    },
                    OptionKind::Value => {
                        if i + 1 < args.len() {
                            let v = args[i + 1].clone();
                            assert(a[i + 1] == v@);
                            let ghost before = opt_views(acc@);
                            acc.set(k, Some(v));
                            assert(opt_views(acc@) =~= before.update(k as int, Some(a[i + 1])));
                            i = i + 2;
                        } else {
                            return CliOutcome::MissingValue(k);
                        }
                    },
                }
            },
        }
    }
    CliOutcome::Run(acc)
}

/// The line printed when an option comes without its value, such as
/// `Error: --limit requires a number argument`.
pub fn missing_value_message(o: &CliOption) -> (r: String)
    requires
        o.names@.len() > 0,
    ensures
        r@ == "Error: "@ + o.names@[0]@ + " requires "@ + o.hint@ + " argument"@,
{
    let mut s = "Error: ".to_string();
    s.append(o.names[0].as_str());
    s.append(" requires ");
    s.append(o.hint.as_str());
    s.append(" argument");
    s
}

/// The line printed for an argument that no option is spelled as.
pub fn unknown_argument_message(arg: &str) -> (r: String)
    ensures
        r@ == "Unknown argument: "@ + arg@,
{
    let mut s = "Unknown argument: ".to_string();
    s.append(arg);
    s
}

pub open spec fn opt_str(o: Option<&str>) -> Option<Seq<char>> {
    match o {
        Some(s) => Some(s@),
        None => None,
    }
}

/// `o` is spelled `long` (and `short`, where given), does `kind`, and
/// describes its value as `hint`.
pub open spec fn option_is(
    o: CliOption,
    long: Seq<char>,
    short: Option<Seq<char>>,
    kind: OptionKind,
    hint: Seq<char>,
) -> bool {
    &&& views_of(o.names@) == (match short {
        Some(s) => seq![long, s],
        None => seq![long],
    })
    &&& o.kind == kind
    &&& o.hint@ == hint
}

/// An option taking a value, with one or two spellings.
pub fn value_option(long: &str, short: Option<&str>, hint: &str) -> (r: CliOption)
    ensures
        option_is(r, long@, opt_str(short), OptionKind::Value, hint@),
        r.kind == OptionKind::Value,
        r.hint@ == hint@,
        views_of(r.names@) == (match short {
            Some(s) => seq![long@, s@],
            None => seq![long@],
        }),
{
    let mut names: Vec<String> = Vec::new();
    names.push(long.to_string());
    match short {
        Some(s) => names.push(s.to_string()),
        None => {},
    }
    assert(views_of(names@) =~= (match short {
        Some(s) => seq![long@, s@],
        None => seq![long@],
    }));
    CliOption { names, kind: OptionKind::Value, hint: hint.to_string() }
}

/// An option standing alone.
pub fn flag_option(long: &str, short: Option<&str>, kind: OptionKind) -> (r: CliOption)
    ensures
        option_is(r, long@, opt_str(short), kind, Seq::<char>::empty()),
        r.kind == kind,
        r.hint@ == Seq::<char>::empty(),
        views_of(r.names@) == (match short {
            Some(s) => seq![long@, s@],
            None => seq![long@],
        }),
{
    let mut names: Vec<String> = Vec::new();
    names.push(long.to_string());
    match short {
        Some(s) => names.push(s.to_string()),
        None => {},
    }
    assert(views_of(names@) =~= (match short {
        Some(s) => seq![long@, s@],
        None => seq![long@],
    }));
    CliOption { names, kind, hint: String::new() }
}

// ---------------------------------------------------------------------------
// Values of options

pub open spec fn or_default(v: Option<Seq<char>>, d: Seq<char>) -> Seq<char> {
    match v {
        Some(s) => s,
        None => d,
    }
}

/// A count given on the command line: its value, `unreadable` when it is not
/// a number, and `absent` when it was not given.
pub open spec fn count_of(v: Option<Seq<char>>, absent: usize, unreadable: usize) -> usize {
    match v {
        Some(s) => match parsed_usize(s) {
            Some(n) => n,
            None => unreadable,
        },
        None => absent,
    }
}

pub fn count_arg(v: &Option<String>, absent: usize, unreadable: usize) -> (r: usize)
    ensures
        r == count_of(opt_views(seq![*v])[0], absent, unreadable),
{
    match v {
        Some(s) => match parse_usize(s.as_str()) {
            Some(n) => n,
            None => unreadable,
        },
        None => absent,
    }
}

pub fn text_arg(v: &Option<String>, default: &str) -> (r: String)
    ensures
        r@ == or_default(opt_views(seq![*v])[0], default@),
{
    match v {
        Some(s) => s.clone(),
        None => default.to_string(),
    }
}

} // verus!
