//! A table-driven command-line grammar: options (long names, aliases, a short
//! letter, flag/single/multiple), positional slots, two levels of subcommands,
//! options that are accepted at every level, and the usual validation rules
//! (required, conflicting, dependent, one-of). `spec_parse` defines the grammar's
//! meaning on a token sequence; `parse` computes it.

use vstd::prelude::*;
use vstd::string::*;
use crate::text::str_eq;

verus! {

/// How an option consumes the command line.
#[derive(Clone, Copy, PartialEq, Eq, Structural, Debug)]
pub enum OptKind {
    /// Present or absent; takes no value; at most once.
    Flag,
    /// Takes one value; at most once.
    Single,
    /// Takes one value per occurrence; any number of occurrences.
    Multi,
}

/// What a positional slot accepts.
#[derive(Clone, Copy, PartialEq, Eq, Structural, Debug)]
pub enum PosKind {
    /// Exactly one token.
    Required,
    /// Zero or one token.
    Optional,
    /// One or more tokens (only as the last slot).
    RequiredMany,
}

/// Why a command line was refused.
#[derive(Clone, Copy, PartialEq, Eq, Structural, Debug)]
pub enum ParseError {
    /// `--help`, `-h` or the `help` subcommand was given.
    HelpRequested,
    /// `--version` or `-V` was given.
    VersionRequested,
    /// A command that needs a subcommand was given none.
    MissingSubcommand,
    /// The token at `index` names no subcommand.
    UnknownSubcommand { index: usize },
    /// The token at `index` is an option that this command does not accept.
    UnknownArgument { index: usize },
    /// The option at `index` takes a value and none follows.
    MissingValue { index: usize },
    /// The flag at `index` was given an `=value`.
    UnexpectedValue { index: usize },
    /// The option at `index` may be given once and was given again.
    Duplicate { index: usize },
    /// More positional arguments than the command has slots for.
    UnexpectedPositional,
    /// Fewer positional arguments than the command requires.
    MissingPositional,
    /// A required option is absent.
    MissingRequired,
    /// Two options that exclude each other are both present.
    Conflict,
    /// An option is present without the option it depends on.
    MissingRequirement,
}

/// The token at `i`, or nothing where there is none.
pub open spec fn token_at(toks: Seq<Seq<char>>, i: int) -> Seq<char> {
    if 0 <= i < toks.len() {
        toks[i]
    } else {
        Seq::empty()
    }
}

/// The sentence that reports a refused command line `toks`, naming the
/// token at fault where the refusal points at one.
pub open spec fn parse_error_text(e: ParseError, toks: Seq<Seq<char>>) -> Seq<char> {
    match e {
        ParseError::HelpRequested => "help was requested"@,
        ParseError::VersionRequested => "the version was requested"@,
        ParseError::MissingSubcommand => "a subcommand is required but one was not provided"@,
        ParseError::UnknownSubcommand { index } => "unrecognized subcommand '"@ + token_at(toks, index as int) + "'"@,
        ParseError::UnknownArgument { index } => "unexpected argument '"@ + token_at(toks, index as int) + "' found"@,
        ParseError::MissingValue { index } => "a value is required for '"@ + token_at(toks, index as int)
            + "' but none was supplied"@,
        ParseError::UnexpectedValue { index } => "unexpected value for '"@ + token_at(toks, index as int)
            + "', which takes none"@,
        ParseError::Duplicate { index } => "the argument '"@ + token_at(toks, index as int)
            + "' cannot be used multiple times"@,
        ParseError::UnexpectedPositional => "unexpected argument found"@,
        ParseError::MissingPositional => "the following required arguments were not provided"@,
        ParseError::MissingRequired => "the following required arguments were not provided"@,
        ParseError::Conflict => "an argument cannot be used with one or more of the other specified arguments"@,
        ParseError::MissingRequirement => "an argument requires another argument that was not provided"@,
    }
}

fn token_text<'a>(args: &[&'a str], i: usize) -> (r: &'a str)
    ensures
        r@ == token_at(tokens_view(args@), i as int),
{
    if i < args.len() {
        args[i]
    } else {
        proof {
            reveal_strlit("");
        }
        ""
    }
}

fn quoted(before: &str, token: &str, after: &str) -> (r: String)
    ensures
        r@ == before@ + token@ + after@,
{
    let mut r = String::from_str(before);
    r.append(token);
    r.append(after);
    r
}

impl ParseError {
    /// The sentence that reports this refusal of the command line `args`.
    pub fn message(&self, args: &[&str]) -> (r: String)
        ensures
            r@ == parse_error_text(*self, tokens_view(args@)),
    {
        match *self {
            ParseError::HelpRequested => String::from_str("help was requested"),
            ParseError::VersionRequested => String::from_str("the version was requested"),
            ParseError::MissingSubcommand => String::from_str("a subcommand is required but one was not provided"),
            ParseError::UnknownSubcommand { index } => quoted("unrecognized subcommand '", token_text(args, index), "'"),
            ParseError::UnknownArgument { index } => quoted("unexpected argument '", token_text(args, index), "' found"),
            ParseError::MissingValue { index } => quoted(
                "a value is required for '",
                token_text(args, index),
                "' but none was supplied",
            ),
            ParseError::UnexpectedValue { index } => quoted(
                "unexpected value for '",
                token_text(args, index),
                "', which takes none",
            ),
            ParseError::Duplicate { index } => quoted(
                "the argument '",
                token_text(args, index),
                "' cannot be used multiple times",
            ),
            ParseError::UnexpectedPositional => String::from_str("unexpected argument found"),
            ParseError::MissingPositional => String::from_str("the following required arguments were not provided"),
            ParseError::MissingRequired => String::from_str("the following required arguments were not provided"),
            ParseError::Conflict => String::from_str(
                "an argument cannot be used with one or more of the other specified arguments",
            ),
            ParseError::MissingRequirement => String::from_str(
                "an argument requires another argument that was not provided",
            ),
        }
    }
}

/// One option of a command.
pub struct OptDef {
    /// Long names, first the canonical one, then aliases (without `--`).
    pub longs: Vec<&'static str>,
    /// The short letter, if any (without `-`).
    pub short: Option<char>,
    pub kind: OptKind,
}

#[verifier::ext_equal]
pub struct OptSpec {
    pub longs: Seq<Seq<char>>,
    pub short: Option<char>,
    pub kind: OptKind,
}

/// A command that takes options and positionals (no subcommands).
pub struct LeafDef {
    /// The command's name, then its aliases.
    pub names: Vec<&'static str>,
    pub opts: Vec<OptDef>,
    pub pos: Vec<PosKind>,
    /// Pairs of option indices that may not both be present.
    pub conflicts: Vec<(usize, usize)>,
    /// Option indices that must be present.
    pub required: Vec<usize>,
    /// `(a, b)`: when `a` is present, `b` must be present too.
    pub requires: Vec<(usize, usize)>,
    /// `(a, b)`: at least one of the two must be present.
    pub one_of: Vec<(usize, usize)>,
}

#[verifier::ext_equal]
pub struct LeafSpec {
    pub names: Seq<Seq<char>>,
    pub opts: Seq<OptSpec>,
    pub pos: Seq<PosKind>,
    pub conflicts: Seq<(usize, usize)>,
    pub required: Seq<usize>,
    pub requires: Seq<(usize, usize)>,
    pub one_of: Seq<(usize, usize)>,
}

/// A command that only dispatches to subcommands.
pub struct GroupDef {
    pub names: Vec<&'static str>,
    pub subs: Vec<LeafDef>,
}

#[verifier::ext_equal]
pub struct GroupSpec {
    pub names: Seq<Seq<char>>,
    pub subs: Seq<LeafSpec>,
}

pub enum CommandDef {
    Leaf(LeafDef),
    Group(GroupDef),
}

#[verifier::ext_equal]
pub enum CommandSpec {
    Leaf(LeafSpec),
    Group(GroupSpec),
}

/// A whole command line grammar: the options accepted at every level, and the
/// top-level commands.
pub struct Grammar {
    pub globals: Vec<OptDef>,
    pub commands: Vec<CommandDef>,
}

#[verifier::ext_equal]
pub struct GrammarSpec {
    pub globals: Seq<OptSpec>,
    pub commands: Seq<CommandSpec>,
}

/// The outcome of a successful parse: which command (and subcommand, `0` for a
/// command without subcommands), the values of the global options and of the
/// command's own options (one entry per occurrence; an empty string for each
/// occurrence of a flag), and the positional arguments in order.
#[derive(Debug)]
pub struct Parsed {
    pub command: usize,
    pub sub: usize,
    pub globals: Vec<Vec<String>>,
    pub opts: Vec<Vec<String>>,
    pub pos: Vec<String>,
}

#[verifier::ext_equal]
pub struct ParsedSpec {
    pub command: usize,
    pub sub: usize,
    pub globals: Seq<Seq<Seq<char>>>,
    pub opts: Seq<Seq<Seq<char>>>,
    pub pos: Seq<Seq<char>>,
}

pub open spec fn names_view(v: Seq<&'static str>) -> Seq<Seq<char>> {
    v.map_values(|s: &'static str| s@)
}

pub open spec fn tokens_view(v: Seq<&str>) -> Seq<Seq<char>> {
    v.map_values(|s: &str| s@)
}

impl View for OptDef {
    type V = OptSpec;

    open spec fn view(&self) -> OptSpec {
        OptSpec { longs: names_view(self.longs@), short: self.short, kind: self.kind }
    }
}

pub open spec fn opts_view(v: Seq<OptDef>) -> Seq<OptSpec> {
    v.map_values(|o: OptDef| o@)
}

impl View for LeafDef {
    type V = LeafSpec;

    open spec fn view(&self) -> LeafSpec {
        LeafSpec {
            names: names_view(self.names@),
            opts: opts_view(self.opts@),
            pos: self.pos@,
            conflicts: self.conflicts@,
            required: self.required@,
            requires: self.requires@,
            one_of: self.one_of@,
        }
    }
}

pub open spec fn leaves_view(v: Seq<LeafDef>) -> Seq<LeafSpec> {
    v.map_values(|l: LeafDef| l@)
}

impl View for GroupDef {
    type V = GroupSpec;

    open spec fn view(&self) -> GroupSpec {
        GroupSpec { names: names_view(self.names@), subs: leaves_view(self.subs@) }
    }
}

impl View for CommandDef {
    type V = CommandSpec;

    open spec fn view(&self) -> CommandSpec {
        match self {
            CommandDef::Leaf(l) => CommandSpec::Leaf(l@),
            CommandDef::Group(g) => CommandSpec::Group(g@),
        }
    }
}

pub open spec fn commands_view(v: Seq<CommandDef>) -> Seq<CommandSpec> {
    v.map_values(|c: CommandDef| c@)
}

impl View for Grammar {
    type V = GrammarSpec;

    open spec fn view(&self) -> GrammarSpec {
        GrammarSpec { globals: opts_view(self.globals@), commands: commands_view(self.commands@) }
    }
}

impl View for Parsed {
    type V = ParsedSpec;

    open spec fn view(&self) -> ParsedSpec {
        ParsedSpec {
            command: self.command,
            sub: self.sub,
            globals: self.globals.deep_view(),
            opts: self.opts.deep_view(),
            pos: self.pos.deep_view(),
        }
    }
}

// ---------------------------------------------------------------------------
// The grammar's meaning
// ---------------------------------------------------------------------------

/// Scanner state: values so far of the global and the command's own options,
/// positionals so far, and whether `--` has been seen.
#[verifier::ext_equal]
pub struct ScanSpec {
    pub globals: Seq<Seq<Seq<char>>>,
    pub opts: Seq<Seq<Seq<char>>>,
    pub pos: Seq<Seq<char>>,
    pub raw: bool,
}

/// `n` empty occurrence lists.
pub open spec fn no_values(n: nat) -> Seq<Seq<Seq<char>>> {
    Seq::new(n, |i: int| Seq::<Seq<char>>::empty())
}

/// A token of the form `--name` or `--name=value` (but not `--` itself).
pub open spec fn is_long(t: Seq<char>) -> bool {
    t.len() >= 2 && t[0] == '-' && t[1] == '-'
}

/// A token of the form `-x...` (a cluster of short options).
pub open spec fn is_short(t: Seq<char>) -> bool {
    t.len() >= 2 && t[0] == '-' && t[1] != '-'
}

/// A token that may serve as the value of the option before it.
pub open spec fn value_token(t: Seq<char>) -> bool {
    !(t.len() >= 2 && t[0] == '-')
}

/// Index of the first `=` in `s` at or after `i`, or `s.len()`.
pub open spec fn first_eq(s: Seq<char>, i: int) -> int
    decreases s.len() - i,
{
    if i >= s.len() {
        s.len() as int
    } else if s[i] == '=' {
        i
    } else {
        first_eq(s, i + 1)
    }
}

/// Splits the body of a long option at its first `=`.
pub open spec fn split_eq(body: Seq<char>) -> (Seq<char>, Option<Seq<char>>) {
    let k = first_eq(body, 0);
    if k < body.len() {
        (body.take(k), Some(body.skip(k + 1)))
    } else {
        (body, None)
    }
}

/// First option at or after `i` that has `name` among its long names.
pub open spec fn find_long(opts: Seq<OptSpec>, name: Seq<char>, i: int) -> Option<int>
    decreases opts.len() - i,
{
    if i >= opts.len() {
        None
    } else if opts[i].longs.contains(name) {
        Some(i)
    } else {
        find_long(opts, name, i + 1)
    }
}

/// First option at or after `i` whose short letter is `c`.
pub open spec fn find_short(opts: Seq<OptSpec>, c: char, i: int) -> Option<int>
    decreases opts.len() - i,
{
    if i >= opts.len() {
        None
    } else if opts[i].short == Some(c) {
        Some(i)
    } else {
        find_short(opts, c, i + 1)
    }
}

/// An option found by name: `(is_global, index)`; the command's own options
/// are searched before the global ones.
pub open spec fn lookup_long(local: Seq<OptSpec>, globals: Seq<OptSpec>, name: Seq<char>) -> Option<(bool, int)> {
    match find_long(local, name, 0) {
        Some(k) => Some((false, k)),
        None => match find_long(globals, name, 0) {
            Some(k) => Some((true, k)),
            None => None,
        },
    }
}

pub open spec fn lookup_short(local: Seq<OptSpec>, globals: Seq<OptSpec>, c: char) -> Option<(bool, int)> {
    match find_short(local, c, 0) {
        Some(k) => Some((false, k)),
        None => match find_short(globals, c, 0) {
            Some(k) => Some((true, k)),
            None => None,
        },
    }
}

pub open spec fn kind_of(local: Seq<OptSpec>, globals: Seq<OptSpec>, found: (bool, int)) -> OptKind {
    if found.0 {
        globals[found.1].kind
    } else {
        local[found.1].kind
    }
}

/// Adds one occurrence with value `v` to option `k`; a second occurrence of an
/// option that is not `Multi` is refused (the offending token is at `at`).
pub open spec fn record(vals: Seq<Seq<Seq<char>>>, k: int, kind: OptKind, v: Seq<char>, at: int) -> Result<Seq<Seq<Seq<char>>>, ParseError> {
    if kind != OptKind::Multi && vals[k].len() > 0 {
        Err(ParseError::Duplicate { index: at as usize })
    } else {
        Ok(vals.update(k, vals[k].push(v)))
    }
}

/// Records one occurrence of the option `found` in the scanner state.
pub open spec fn apply(st: ScanSpec, local: Seq<OptSpec>, globals: Seq<OptSpec>, found: (bool, int), v: Seq<char>, at: int) -> Result<ScanSpec, ParseError> {
    if found.0 {
        match record(st.globals, found.1, globals[found.1].kind, v, at) {
            Ok(g) => Ok(ScanSpec { globals: g, ..st }),
            Err(e) => Err(e),
        }
    } else {
        match record(st.opts, found.1, local[found.1].kind, v, at) {
            Ok(o) => Ok(ScanSpec { opts: o, ..st }),
            Err(e) => Err(e),
        }
    }
}

/// The token after `i` exists and may be taken as a value.
pub open spec fn takes_next(toks: Seq<Seq<char>>, i: int) -> bool {
    i + 1 < toks.len() && value_token(toks[i + 1])
}

/// Handles the long option at `toks[i]`; the flag in the result tells whether
/// the token after it was consumed as its value.
pub open spec fn long_step(local: Seq<OptSpec>, globals: Seq<OptSpec>, toks: Seq<Seq<char>>, i: int, st: ScanSpec) -> Result<(ScanSpec, bool), ParseError> {
    let (name, inline) = split_eq(toks[i].skip(2));
    if name == "help"@ {
        Err(ParseError::HelpRequested)
    } else if name == "version"@ {
        Err(ParseError::VersionRequested)
    } else {
        match lookup_long(local, globals, name) {
            None => Err(ParseError::UnknownArgument { index: i as usize }),
            Some(found) => {
                if kind_of(local, globals, found) == OptKind::Flag {
                    if inline is Some {
                        Err(ParseError::UnexpectedValue { index: i as usize })
                    } else {
                        match apply(st, local, globals, found, Seq::empty(), i) {
                            Ok(s) => Ok((s, false)),
                            Err(e) => Err(e),
                        }
                    }
                } else {
                    match inline {
                        Some(v) => match apply(st, local, globals, found, v, i) {
                            Ok(s) => Ok((s, false)),
                            Err(e) => Err(e),
                        },
                        None => if takes_next(toks, i) {
                            match apply(st, local, globals, found, toks[i + 1], i) {
                                Ok(s) => Ok((s, true)),
                                Err(e) => Err(e),
                            }
                        } else {
                            Err(ParseError::MissingValue { index: i as usize })
                        },
                    }
                }
            },
        }
    }
}

/// Handles the cluster of short options in `toks[i]` from its character `j` on:
/// flags may be grouped; an option that takes a value takes the rest of the
/// token (after an optional `=`), or else the next token.
pub open spec fn short_step(local: Seq<OptSpec>, globals: Seq<OptSpec>, toks: Seq<Seq<char>>, i: int, j: int, st: ScanSpec) -> Result<(ScanSpec, bool), ParseError>
    decreases toks[i].len() - j,
{
    let t = toks[i];
    if j >= t.len() {
        Ok((st, false))
    } else {
        let c = t[j];
        if c == 'h' {
            Err(ParseError::HelpRequested)
        } else if c == 'V' {
            Err(ParseError::VersionRequested)
        } else {
            match lookup_short(local, globals, c) {
                None => Err(ParseError::UnknownArgument { index: i as usize }),
                Some(found) => {
                    if kind_of(local, globals, found) == OptKind::Flag {
                        match apply(st, local, globals, found, Seq::empty(), i) {
                            Ok(s) => short_step(local, globals, toks, i, j + 1, s),
                            Err(e) => Err(e),
                        }
                    } else {
                        let rest = t.skip(j + 1);
                        if rest.len() > 0 {
                            let v = if rest[0] == '=' { rest.skip(1) } else { rest };
                            match apply(st, local, globals, found, v, i) {
                                Ok(s) => Ok((s, false)),
                                Err(e) => Err(e),
                            }
                        } else if takes_next(toks, i) {
                            match apply(st, local, globals, found, toks[i + 1], i) {
                                Ok(s) => Ok((s, true)),
                                Err(e) => Err(e),
                            }
                        } else {
                            Err(ParseError::MissingValue { index: i as usize })
                        }
                    }
                },
            }
        }
    }
}

/// Scans the tokens of a command from `i` on: options (its own and the global
/// ones) and positionals; after `--` every token is positional.
pub open spec fn scan_leaf(local: Seq<OptSpec>, globals: Seq<OptSpec>, toks: Seq<Seq<char>>, i: int, st: ScanSpec) -> Result<ScanSpec, ParseError>
    decreases toks.len() + 1 - i,
{
    if i < 0 || i >= toks.len() {
        Ok(st)
    } else {
        let t = toks[i];
        if st.raw {
            scan_leaf(local, globals, toks, i + 1, ScanSpec { pos: st.pos.push(t), ..st })
        } else if t == "--"@ {
            scan_leaf(local, globals, toks, i + 1, ScanSpec { raw: true, ..st })
        } else if is_long(t) {
            match long_step(local, globals, toks, i, st) {
                Ok((s, consumed)) => scan_leaf(local, globals, toks, if consumed { i + 2 } else { i + 1 }, s),
                Err(e) => Err(e),
            }
        } else if is_short(t) {
            match short_step(local, globals, toks, i, 1, st) {
                Ok((s, consumed)) => scan_leaf(local, globals, toks, if consumed { i + 2 } else { i + 1 }, s),
                Err(e) => Err(e),
            }
        } else {
            scan_leaf(local, globals, toks, i + 1, ScanSpec { pos: st.pos.push(t), ..st })
        }
    }
}

/// Scans global options from `i` up to the first positional token (the name of
/// a subcommand), returning the state and that token's index.
pub open spec fn scan_prefix(globals: Seq<OptSpec>, toks: Seq<Seq<char>>, i: int, st: ScanSpec) -> Result<(ScanSpec, int), ParseError>
    decreases toks.len() + 1 - i,
{
    if i < 0 || i >= toks.len() {
        Ok((st, i))
    } else {
        let t = toks[i];
        if t == "--"@ {
            Err(ParseError::UnknownArgument { index: i as usize })
        } else if is_long(t) {
            match long_step(Seq::empty(), globals, toks, i, st) {
                Ok((s, consumed)) => scan_prefix(globals, toks, if consumed { i + 2 } else { i + 1 }, s),
                Err(e) => Err(e),
            }
        } else if is_short(t) {
            match short_step(Seq::empty(), globals, toks, i, 1, st) {
                Ok((s, consumed)) => scan_prefix(globals, toks, if consumed { i + 2 } else { i + 1 }, s),
                Err(e) => Err(e),
            }
        } else {
            Ok((st, i))
        }
    }
}

pub open spec fn command_names(c: CommandSpec) -> Seq<Seq<char>> {
    match c {
        CommandSpec::Leaf(l) => l.names,
        CommandSpec::Group(g) => g.names,
    }
}

/// First command at or after `i` that has `w` among its names.
pub open spec fn find_command(cmds: Seq<CommandSpec>, w: Seq<char>, i: int) -> Option<int>
    decreases cmds.len() - i,
{
    if i >= cmds.len() {
        None
    } else if command_names(cmds[i]).contains(w) {
        Some(i)
    } else {
        find_command(cmds, w, i + 1)
    }
}

/// First subcommand at or after `i` that has `w` among its names.
pub open spec fn find_leaf(subs: Seq<LeafSpec>, w: Seq<char>, i: int) -> Option<int>
    decreases subs.len() - i,
{
    if i >= subs.len() {
        None
    } else if subs[i].names.contains(w) {
        Some(i)
    } else {
        find_leaf(subs, w, i + 1)
    }
}

/// Fewest positional tokens the slots accept.
pub open spec fn pos_min(pos: Seq<PosKind>) -> nat
    decreases pos.len(),
{
    if pos.len() == 0 {
        0
    } else {
        pos_min(pos.drop_last()) + if pos.last() == PosKind::Optional { 0nat } else { 1nat }
    }
}

/// The slots accept any number of tokens beyond their minimum.
pub open spec fn pos_unbounded(pos: Seq<PosKind>) -> bool {
    exists|k: int| 0 <= k < pos.len() && pos[k] == PosKind::RequiredMany
}

pub open spec fn present(opts: Seq<Seq<Seq<char>>>, k: usize) -> bool {
    k < opts.len() && opts[k as int].len() > 0
}

/// The validation rules of a command, in the order in which they are applied.
pub open spec fn check_leaf(leaf: LeafSpec, opts: Seq<Seq<Seq<char>>>, pos: Seq<Seq<char>>) -> Result<(), ParseError> {
    if pos.len() < pos_min(leaf.pos) {
        Err(ParseError::MissingPositional)
    } else if !pos_unbounded(leaf.pos) && pos.len() > leaf.pos.len() {
        Err(ParseError::UnexpectedPositional)
    } else if exists|k: int| 0 <= k < leaf.required.len() && !present(opts, leaf.required[k]) {
        Err(ParseError::MissingRequired)
    } else if exists|k: int| 0 <= k < leaf.conflicts.len()
        && present(opts, leaf.conflicts[k].0) && present(opts, leaf.conflicts[k].1) {
        Err(ParseError::Conflict)
    } else if exists|k: int| 0 <= k < leaf.requires.len()
        && present(opts, leaf.requires[k].0) && !present(opts, leaf.requires[k].1) {
        Err(ParseError::MissingRequirement)
    } else if exists|k: int| 0 <= k < leaf.one_of.len()
        && !present(opts, leaf.one_of[k].0) && !present(opts, leaf.one_of[k].1) {
        Err(ParseError::MissingRequired)
    } else {
        Ok(())
    }
}

/// Scans and validates a command whose own tokens start at `start`.
pub open spec fn finish_leaf(g: GrammarSpec, leaf: LeafSpec, toks: Seq<Seq<char>>, start: int, st: ScanSpec, c: int, s: int) -> Result<ParsedSpec, ParseError> {
    let st1 = ScanSpec { opts: no_values(leaf.opts.len()), ..st };
    match scan_leaf(leaf.opts, g.globals, toks, start, st1) {
        Err(e) => Err(e),
        Ok(st2) => match check_leaf(leaf, st2.opts, st2.pos) {
            Err(e) => Err(e),
            Ok(_) => Ok(ParsedSpec {
                command: c as usize,
                sub: s as usize,
                globals: st2.globals,
                opts: st2.opts,
                pos: st2.pos,
            }),
        },
    }
}

/// The meaning of the grammar `g` on the command line `toks` (whose first token,
/// the program's name, is skipped).
pub open spec fn spec_parse(g: GrammarSpec, toks: Seq<Seq<char>>) -> Result<ParsedSpec, ParseError> {
    let st0 = ScanSpec { globals: no_values(g.globals.len()), opts: seq![], pos: seq![], raw: false };
    match scan_prefix(g.globals, toks, 1, st0) {
        Err(e) => Err(e),
        Ok((st, i)) => if i >= toks.len() {
            Err(ParseError::MissingSubcommand)
        } else if toks[i] == "help"@ {
            Err(ParseError::HelpRequested)
        } else {
            match find_command(g.commands, toks[i], 0) {
                None => Err(ParseError::UnknownSubcommand { index: i as usize }),
                Some(c) => match g.commands[c] {
                    CommandSpec::Leaf(leaf) => finish_leaf(g, leaf, toks, i + 1, st, c, 0),
                    CommandSpec::Group(grp) => match scan_prefix(g.globals, toks, i + 1, st) {
                        Err(e) => Err(e),
                        Ok((st2, j)) => if j >= toks.len() {
                            Err(ParseError::MissingSubcommand)
                        } else if toks[j] == "help"@ {
                            Err(ParseError::HelpRequested)
                        } else {
                            match find_leaf(grp.subs, toks[j], 0) {
                                None => Err(ParseError::UnknownSubcommand { index: j as usize }),
                                Some(s) => finish_leaf(g, grp.subs[s], toks, j + 1, st2, c, s),
                            }
                        },
                    },
                },
            }
        },
    }
}


// ---------------------------------------------------------------------------
// The parser
// ---------------------------------------------------------------------------

pub open spec fn opt_int(r: Option<usize>) -> Option<int> {
    match r {
        Some(k) => Some(k as int),
        None => None,
    }
}

pub open spec fn opt_found(r: Option<(bool, usize)>) -> Option<(bool, int)> {
    match r {
        Some(f) => Some((f.0, f.1 as int)),
        None => None,
    }
}

/// Scanner state as it is computed.
pub struct Scan {
    pub globals: Vec<Vec<String>>,
    pub opts: Vec<Vec<String>>,
    pub pos: Vec<String>,
    pub raw: bool,
}

impl View for Scan {
    type V = ScanSpec;

    open spec fn view(&self) -> ScanSpec {
        ScanSpec {
            globals: self.globals.deep_view(),
            opts: self.opts.deep_view(),
            pos: self.pos.deep_view(),
            raw: self.raw,
        }
    }
}

/// `names` holds `w`.
fn names_contain(names: &Vec<&'static str>, w: &str) -> (r: bool)
    ensures
        r == names_view(names@).contains(w@),
{
    let mut i: usize = 0;
    while i < names.len()
        invariant
            i <= names.len(),
            forall|j: int| 0 <= j < i ==> names@[j]@ != w@,
        decreases names.len() - i,
    {
        if str_eq(names[i], w) {
            assert(names_view(names@)[i as int] == w@);
            return true;
        }
        i = i + 1;
    }
    assert(!names_view(names@).contains(w@)) by {
        if names_view(names@).contains(w@) {
            let j = choose|j: int| 0 <= j < names_view(names@).len() && names_view(names@)[j] == w@;
            assert(names@[j]@ == w@);
        }
    }
    false
}

fn find_long_exec(opts: &Vec<OptDef>, name: &str) -> (r: Option<usize>)
    ensures
        opt_int(r) == find_long(opts_view(opts@), name@, 0),
        r matches Some(k) ==> k < opts.len(),
{
    let ghost ov = opts_view(opts@);
    let mut i: usize = 0;
    while i < opts.len()
        invariant
            i <= opts.len(),
            ov == opts_view(opts@),
            find_long(ov, name@, i as int) == find_long(ov, name@, 0),
        decreases opts.len() - i,
    {
        if names_contain(&opts[i].longs, name) {
            return Some(i);
        }
        i = i + 1;
    }
    None
}

fn find_short_exec(opts: &Vec<OptDef>, c: char) -> (r: Option<usize>)
    ensures
        opt_int(r) == find_short(opts_view(opts@), c, 0),
        r matches Some(k) ==> k < opts.len(),
{
    let ghost ov = opts_view(opts@);
    let mut i: usize = 0;
    while i < opts.len()
        invariant
            i <= opts.len(),
            ov == opts_view(opts@),
            find_short(ov, c, i as int) == find_short(ov, c, 0),
        decreases opts.len() - i,
    {
        if opts[i].short == Some(c) {
            return Some(i);
        }
        i = i + 1;
    }
    None
}

fn lookup_long_exec(local: &Vec<OptDef>, globals: &Vec<OptDef>, name: &str) -> (r: Option<(bool, usize)>)
    ensures
        opt_found(r) == lookup_long(opts_view(local@), opts_view(globals@), name@),
        r matches Some(f) ==> (if f.0 { f.1 < globals.len() } else { f.1 < local.len() }),
{
    match find_long_exec(local, name) {
        Some(k) => Some((false, k)),
        None => match find_long_exec(globals, name) {
            Some(k) => Some((true, k)),
            None => None,
        },
    }
}

fn lookup_short_exec(local: &Vec<OptDef>, globals: &Vec<OptDef>, c: char) -> (r: Option<(bool, usize)>)
    ensures
        opt_found(r) == lookup_short(opts_view(local@), opts_view(globals@), c),
        r matches Some(f) ==> (if f.0 { f.1 < globals.len() } else { f.1 < local.len() }),
{
    match find_short_exec(local, c) {
        Some(k) => Some((false, k)),
        None => match find_short_exec(globals, c) {
            Some(k) => Some((true, k)),
            None => None,
        },
    }
}

fn record_exec(vals: &mut Vec<Vec<String>>, k: usize, kind: OptKind, v: String, at: usize) -> (r: Result<(), ParseError>)
    requires
        k < old(vals).len(),
    ensures
        match record(old(vals).deep_view(), k as int, kind, v@, at as int) {
            Ok(nv) => r is Ok && final(vals).deep_view() == nv,
            Err(e) => r == Err::<(), ParseError>(e),
        },
{
    if kind != OptKind::Multi && vals[k].len() > 0 {
        return Err(ParseError::Duplicate { index: at });
    }
    let ghost old_dv = vals.deep_view();
    let mut inner = vals.remove(k);
    let ghost inner_old = inner.deep_view();
    assert(inner_old == old_dv[k as int]);
    inner.push(v);
    assert(inner.deep_view() =~= inner_old.push(v@));
    vals.insert(k, inner);
    assert(vals.deep_view() =~= old_dv.update(k as int, old_dv[k as int].push(v@)));
    Ok(())
}

pub open spec fn scan_wf(st: ScanSpec, nl: nat, ng: nat) -> bool {
    st.opts.len() == nl && st.globals.len() == ng
}

fn apply_exec(
    st: &mut Scan,
    local: &Vec<OptDef>,
    globals: &Vec<OptDef>,
    found: (bool, usize),
    v: String,
    at: usize,
) -> (r: Result<(), ParseError>)
    requires
        scan_wf(old(st)@, local.len() as nat, globals.len() as nat),
        if found.0 { found.1 < globals.len() } else { found.1 < local.len() },
    ensures
        match apply(old(st)@, opts_view(local@), opts_view(globals@), (found.0, found.1 as int), v@, at as int) {
            Ok(s) => r is Ok && final(st)@ == s,
            Err(e) => r == Err::<(), ParseError>(e),
        },
        r is Ok ==> scan_wf(final(st)@, local.len() as nat, globals.len() as nat),
{
    if found.0 {
        let kind = globals[found.1].kind;
        record_exec(&mut st.globals, found.1, kind, v, at)
    } else {
        let kind = local[found.1].kind;
        record_exec(&mut st.opts, found.1, kind, v, at)
    }
}

fn is_long_exec(t: &str) -> (r: bool)
    ensures
        r == is_long(t@),
{
    let n = t.unicode_len();
    n >= 2 && t.get_char(0) == '-' && t.get_char(1) == '-'
}

fn is_short_exec(t: &str) -> (r: bool)
    ensures
        r == is_short(t@),
{
    let n = t.unicode_len();
    n >= 2 && t.get_char(0) == '-' && t.get_char(1) != '-'
}

fn takes_next_exec(toks: &[&str], i: usize) -> (r: bool)
    requires
        i < toks.len(),
    ensures
        r == takes_next(tokens_view(toks@), i as int),
{
    if i + 1 < toks.len() {
        let t = toks[i + 1];
        let n = t.unicode_len();
        !(n >= 2 && t.get_char(0) == '-')
    } else {
        false
    }
}

fn long_step_exec(
    local: &Vec<OptDef>,
    globals: &Vec<OptDef>,
    toks: &[&str],
    i: usize,
    st: &mut Scan,
) -> (r: Result<bool, ParseError>)
    requires
        i < toks.len(),
        is_long(toks@[i as int]@),
        scan_wf(old(st)@, local.len() as nat, globals.len() as nat),
    ensures
        match long_step(opts_view(local@), opts_view(globals@), tokens_view(toks@), i as int, old(st)@) {
            Ok((s, c)) => r == Ok::<bool, ParseError>(c) && final(st)@ == s,
            Err(e) => r == Err::<bool, ParseError>(e),
        },
        r is Ok ==> scan_wf(final(st)@, local.len() as nat, globals.len() as nat),
        r == Ok::<bool, ParseError>(true) ==> i + 1 < toks.len(),
{
    let t = toks[i];
    let ghost tv = tokens_view(toks@);
    assert(tv[i as int] == t@);
    let n = t.unicode_len();
    let ghost body = t@.skip(2);
    let mut m: usize = 0;
    while m + 2 < n && t.get_char(m + 2) != '='
        invariant
            n == t@.len(),
            n >= 2,
            m + 2 <= n,
            body == t@.skip(2),
            first_eq(body, m as int) == first_eq(body, 0),
        decreases n - m,
    {
        m = m + 1;
    }
    assert(first_eq(body, 0) == m as int);
    let name = t.substring_char(2, m + 2);
    assert(name@ =~= body.take(m as int));
    let inline: Option<&str> = if m + 2 < n {
        let v = t.substring_char(m + 3, n);
        assert(v@ =~= body.skip(m + 1));
        Some(v)
    } else {
        assert(body.len() == m);
        assert(name@ =~= body);
        None
    };
    if str_eq(name, "help") {
        return Err(ParseError::HelpRequested);
    }
    if str_eq(name, "version") {
        return Err(ParseError::VersionRequested);
    }
    match lookup_long_exec(local, globals, name) {
        None => Err(ParseError::UnknownArgument { index: i }),
        Some(found) => {
            let kind = if found.0 { globals[found.1].kind } else { local[found.1].kind };
            if kind == OptKind::Flag {
                if inline.is_some() {
                    Err(ParseError::UnexpectedValue { index: i })
                } else {
                    match apply_exec(st, local, globals, found, String::new(), i) {
                        Ok(()) => Ok(false),
                        Err(e) => Err(e),
                    }
                }
            } else {
                match inline {
                    Some(v) => match apply_exec(st, local, globals, found, v.to_owned(), i) {
                        Ok(()) => Ok(false),
                        Err(e) => Err(e),
                    },
                    None => if takes_next_exec(toks, i) {
                        assert(tv[i + 1] == toks@[i + 1]@);
                        match apply_exec(st, local, globals, found, toks[i + 1].to_owned(), i) {
                            Ok(()) => Ok(true),
                            Err(e) => Err(e),
                        }
                    } else {
                        Err(ParseError::MissingValue { index: i })
                    },
                }
            }
        },
    }
}

fn short_step_exec(
    local: &Vec<OptDef>,
    globals: &Vec<OptDef>,
    toks: &[&str],
    i: usize,
    st: &mut Scan,
) -> (r: Result<bool, ParseError>)
    requires
        i < toks.len(),
        scan_wf(old(st)@, local.len() as nat, globals.len() as nat),
    ensures
        match short_step(opts_view(local@), opts_view(globals@), tokens_view(toks@), i as int, 1, old(st)@) {
            Ok((s, c)) => r == Ok::<bool, ParseError>(c) && final(st)@ == s,
            Err(e) => r == Err::<bool, ParseError>(e),
        },
        r is Ok ==> scan_wf(final(st)@, local.len() as nat, globals.len() as nat),
        r == Ok::<bool, ParseError>(true) ==> i + 1 < toks.len(),
{
    let t = toks[i];
    let ghost tv = tokens_view(toks@);
    let ghost lv = opts_view(local@);
    let ghost gv = opts_view(globals@);
    let ghost st0 = st@;
    assert(tv[i as int] == t@);
    let n = t.unicode_len();
    let mut j: usize = 1;
    while j < n
        invariant
            n == t@.len(),
            tv == tokens_view(toks@),
            lv == opts_view(local@),
            gv == opts_view(globals@),
            tv[i as int] == t@,
            i < toks.len(),
            1 <= j,
            st0 == old(st)@,
            short_step(lv, gv, tv, i as int, j as int, st@) == short_step(lv, gv, tv, i as int, 1, st0),
            scan_wf(st@, local.len() as nat, globals.len() as nat),
        decreases n - j,
    {
        let c = t.get_char(j);
        assert(tv[i as int][j as int] == c);
        if c == 'h' {
            assert(short_step(lv, gv, tv, i as int, j as int, st@) == Err::<(ScanSpec, bool), ParseError>(ParseError::HelpRequested));
            return Err(ParseError::HelpRequested);
        }
        if c == 'V' {
            return Err(ParseError::VersionRequested);
        }
        match lookup_short_exec(local, globals, c) {
            None => {
                return Err(ParseError::UnknownArgument { index: i });
            },
            Some(found) => {
                let kind = if found.0 { globals[found.1].kind } else { local[found.1].kind };
                if kind == OptKind::Flag {
                    match apply_exec(st, local, globals, found, String::new(), i) {
                        Ok(()) => {},
                        Err(e) => {
                            return Err(e);
                        },
                    }
                } else {
                    let ghost rest = t@.skip(j + 1);
                    if j + 1 < n {
                        let v = if t.get_char(j + 1) == '=' {
                            let v = t.substring_char(j + 2, n);
                            assert(v@ =~= rest.skip(1));
                            v
                        } else {
                            let v = t.substring_char(j + 1, n);
                            assert(v@ =~= rest);
                            v
                        };
                        return match apply_exec(st, local, globals, found, v.to_owned(), i) {
                            Ok(()) => Ok(false),
                            Err(e) => Err(e),
                        };
                    } else if takes_next_exec(toks, i) {
                        assert(rest.len() == 0);
                        assert(tv[i + 1] == toks@[i + 1]@);
                        return match apply_exec(st, local, globals, found, toks[i + 1].to_owned(), i) {
                            Ok(()) => Ok(true),
                            Err(e) => Err(e),
                        };
                    } else {
                        assert(rest.len() == 0);
                        return Err(ParseError::MissingValue { index: i });
                    }
                }
            },
        }
        j = j + 1;
    }
    Ok(false)
}


fn scan_leaf_exec(local: &Vec<OptDef>, globals: &Vec<OptDef>, toks: &[&str], start: usize, st: &mut Scan) -> (r: Result<(), ParseError>)
    requires
        scan_wf(old(st)@, local.len() as nat, globals.len() as nat),
    ensures
        match scan_leaf(opts_view(local@), opts_view(globals@), tokens_view(toks@), start as int, old(st)@) {
            Ok(s) => r is Ok && final(st)@ == s,
            Err(e) => r == Err::<(), ParseError>(e),
        },
        r is Ok ==> scan_wf(final(st)@, local.len() as nat, globals.len() as nat),
{
    let ghost tv = tokens_view(toks@);
    let ghost lv = opts_view(local@);
    let ghost gv = opts_view(globals@);
    let ghost st0 = st@;
    let mut i = start;
    while i < toks.len()
        invariant
            tv == tokens_view(toks@),
            lv == opts_view(local@),
            gv == opts_view(globals@),
            st0 == old(st)@,
            start <= i,
            scan_leaf(lv, gv, tv, i as int, st@) == scan_leaf(lv, gv, tv, start as int, st0),
            scan_wf(st@, local.len() as nat, globals.len() as nat),
        decreases toks.len() + 1 - i,
    {
        let t = toks[i];
        assert(tv[i as int] == t@);
        if st.raw {
            let ghost prev = st.pos.deep_view();
            st.pos.push(t.to_owned());
            assert(st.pos.deep_view() =~= prev.push(t@));
            i = i + 1;
        } else if str_eq(t, "--") {
            st.raw = true;
            i = i + 1;
        } else if is_long_exec(t) {
            match long_step_exec(local, globals, toks, i, st) {
                Ok(consumed) => {
                    i = if consumed { i + 2 } else { i + 1 };
                },
                Err(e) => {
                    return Err(e);
                },
            }
        } else if is_short_exec(t) {
            match short_step_exec(local, globals, toks, i, st) {
                Ok(consumed) => {
                    i = if consumed { i + 2 } else { i + 1 };
                },
                Err(e) => {
                    return Err(e);
                },
            }
        } else {
            let ghost prev = st.pos.deep_view();
            st.pos.push(t.to_owned());
            assert(st.pos.deep_view() =~= prev.push(t@));
            i = i + 1;
        }
    }
    Ok(())
}


fn scan_prefix_exec(globals: &Vec<OptDef>, toks: &[&str], start: usize, st: &mut Scan) -> (r: Result<usize, ParseError>)
    requires
        scan_wf(old(st)@, 0, globals.len() as nat),
    ensures
        match scan_prefix(opts_view(globals@), tokens_view(toks@), start as int, old(st)@) {
            Ok((s, k)) => r == Ok::<usize, ParseError>(k as usize) && final(st)@ == s && k == r->Ok_0,
            Err(e) => r == Err::<usize, ParseError>(e),
        },
        r is Ok ==> scan_wf(final(st)@, 0, globals.len() as nat),
{
    let ghost tv = tokens_view(toks@);
    let ghost gv = opts_view(globals@);
    let ghost st0 = st@;
    let empty: Vec<OptDef> = Vec::new();
    assert(opts_view(empty@) =~= Seq::<OptSpec>::empty());
    let mut i = start;
    while i < toks.len()
        invariant
            tv == tokens_view(toks@),
            gv == opts_view(globals@),
            opts_view(empty@) == Seq::<OptSpec>::empty(),
            empty.len() == 0,
            st0 == old(st)@,
            start <= i,
            scan_prefix(gv, tv, i as int, st@) == scan_prefix(gv, tv, start as int, st0),
            scan_wf(st@, 0, globals.len() as nat),
        decreases toks.len() + 1 - i,
    {
        let t = toks[i];
        assert(tv[i as int] == t@);
        if str_eq(t, "--") {
            return Err(ParseError::UnknownArgument { index: i });
        } else if is_long_exec(t) {
            match long_step_exec(&empty, globals, toks, i, st) {
                Ok(consumed) => {
                    i = if consumed { i + 2 } else { i + 1 };
                },
                Err(e) => {
                    return Err(e);
                },
            }
        } else if is_short_exec(t) {
            match short_step_exec(&empty, globals, toks, i, st) {
                Ok(consumed) => {
                    i = if consumed { i + 2 } else { i + 1 };
                },
                Err(e) => {
                    return Err(e);
                },
            }
        } else {
            return Ok(i);
        }
    }
    Ok(i)
}

fn command_names_exec(c: &CommandDef) -> (r: &Vec<&'static str>)
    ensures
        names_view(r@) == command_names(c@),
{
    match c {
        CommandDef::Leaf(l) => &l.names,
        CommandDef::Group(g) => &g.names,
    }
}

fn find_command_exec(cmds: &Vec<CommandDef>, w: &str) -> (r: Option<usize>)
    ensures
        opt_int(r) == find_command(commands_view(cmds@), w@, 0),
        r matches Some(k) ==> k < cmds.len(),
{
    let ghost cv = commands_view(cmds@);
    let mut i: usize = 0;
    while i < cmds.len()
        invariant
            i <= cmds.len(),
            cv == commands_view(cmds@),
            find_command(cv, w@, i as int) == find_command(cv, w@, 0),
        decreases cmds.len() - i,
    {
        if names_contain(command_names_exec(&cmds[i]), w) {
            return Some(i);
        }
        i = i + 1;
    }
    None
}

fn find_leaf_exec(subs: &Vec<LeafDef>, w: &str) -> (r: Option<usize>)
    ensures
        opt_int(r) == find_leaf(leaves_view(subs@), w@, 0),
        r matches Some(k) ==> k < subs.len(),
{
    let ghost lv = leaves_view(subs@);
    let mut i: usize = 0;
    while i < subs.len()
        invariant
            i <= subs.len(),
            lv == leaves_view(subs@),
            find_leaf(lv, w@, i as int) == find_leaf(lv, w@, 0),
        decreases subs.len() - i,
    {
        if names_contain(&subs[i].names, w) {
            return Some(i);
        }
        i = i + 1;
    }
    None
}

fn present_exec(opts: &Vec<Vec<String>>, k: usize) -> (r: bool)
    ensures
        r == present(opts.deep_view(), k),
{
    k < opts.len() && opts[k].len() > 0
}

#[verifier::loop_isolation(false)]
fn check_leaf_exec(leaf: &LeafDef, opts: &Vec<Vec<String>>, pos: &Vec<String>) -> (r: Result<(), ParseError>)
    ensures
        r == check_leaf(leaf@, opts.deep_view(), pos.deep_view()),
{
    let ghost lv = leaf@;
    let ghost ov = opts.deep_view();
    let ghost pv = pos.deep_view();
    // fewest and most positionals
    let mut min: usize = 0;
    let mut unbounded = false;
    let mut i: usize = 0;
    while i < leaf.pos.len()
        invariant
            i <= leaf.pos.len(),
            min <= i,
            min == pos_min(leaf.pos@.take(i as int)),
            unbounded == exists|k: int| 0 <= k < i && leaf.pos@[k] == PosKind::RequiredMany,
        decreases leaf.pos.len() - i,
    {
        assert(leaf.pos@.take(i + 1).drop_last() =~= leaf.pos@.take(i as int));
        if leaf.pos[i] != PosKind::Optional {
            min = min + 1;
        }
        if leaf.pos[i] == PosKind::RequiredMany {
            unbounded = true;
        }
        i = i + 1;
    }
    assert(leaf.pos@.take(leaf.pos.len() as int) =~= leaf.pos@);
    if pos.len() < min {
        return Err(ParseError::MissingPositional);
    }
    if !unbounded && pos.len() > leaf.pos.len() {
        return Err(ParseError::UnexpectedPositional);
    }
    let mut k: usize = 0;
    while k < leaf.required.len()
        invariant
            k <= leaf.required.len(),
            ov == opts.deep_view(),
            forall|j: int| 0 <= j < k ==> present(ov, leaf.required@[j]),
        decreases leaf.required.len() - k,
    {
        if !present_exec(opts, leaf.required[k]) {
            assert(!present(ov, leaf@.required[k as int]));
            return Err(ParseError::MissingRequired);
        }
        k = k + 1;
    }
    let mut k: usize = 0;
    while k < leaf.conflicts.len()
        invariant
            k <= leaf.conflicts.len(),
            ov == opts.deep_view(),
            forall|j: int| 0 <= j < k ==> !(present(ov, leaf.conflicts@[j].0) && present(ov, leaf.conflicts@[j].1)),
        decreases leaf.conflicts.len() - k,
    {
        let (a, b) = leaf.conflicts[k];
        if present_exec(opts, a) && present_exec(opts, b) {
            return Err(ParseError::Conflict);
        }
        k = k + 1;
    }
    let mut k: usize = 0;
    while k < leaf.requires.len()
        invariant
            k <= leaf.requires.len(),
            ov == opts.deep_view(),
            forall|j: int| 0 <= j < k ==> !(present(ov, leaf.requires@[j].0) && !present(ov, leaf.requires@[j].1)),
        decreases leaf.requires.len() - k,
    {
        let (a, b) = leaf.requires[k];
        if present_exec(opts, a) && !present_exec(opts, b) {
            return Err(ParseError::MissingRequirement);
        }
        k = k + 1;
    }
    let mut k: usize = 0;
    while k < leaf.one_of.len()
        invariant
            k <= leaf.one_of.len(),
            ov == opts.deep_view(),
            forall|j: int| 0 <= j < k ==> !(!present(ov, leaf.one_of@[j].0) && !present(ov, leaf.one_of@[j].1)),
        decreases leaf.one_of.len() - k,
    {
        let (a, b) = leaf.one_of[k];
        if !present_exec(opts, a) && !present_exec(opts, b) {
            assert(!present(ov, leaf@.one_of[k as int].0) && !present(ov, leaf@.one_of[k as int].1));
            return Err(ParseError::MissingRequired);
        }
        k = k + 1;
    }
    Ok(())
}

/// `n` empty occurrence lists.
fn no_values_exec(n: usize) -> (r: Vec<Vec<String>>)
    ensures
        r.deep_view() == no_values(n as nat),
{
    let mut r: Vec<Vec<String>> = Vec::new();
    let mut i: usize = 0;
    while i < n
        invariant
            i <= n,
            r.deep_view() =~= no_values(i as nat),
        decreases n - i,
    {
        let e: Vec<String> = Vec::new();
        assert(e.deep_view() =~= Seq::<Seq<char>>::empty());
        let ghost prev = r.deep_view();
        r.push(e);
        assert(r.deep_view() =~= prev.push(Seq::<Seq<char>>::empty()));
        assert(r.deep_view() =~= no_values((i + 1) as nat));
        i = i + 1;
    }
    r
}

fn finish_leaf_exec(
    g: &Grammar,
    leaf: &LeafDef,
    toks: &[&str],
    start: usize,
    st: Scan,
    c: usize,
    s: usize,
) -> (r: Result<Parsed, ParseError>)
    requires
        scan_wf(st@, 0, g.globals.len() as nat),
    ensures
        match finish_leaf(g@, leaf@, tokens_view(toks@), start as int, st@, c as int, s as int) {
            Ok(p) => r is Ok && r->Ok_0@ == p,
            Err(e) => r == Err::<Parsed, ParseError>(e),
        },
        r matches Ok(pp) ==> leaf_ok(leaf@, pp@) && pp@.globals.len() == g.globals.len()
            && pp.command == c && pp.sub == s,
{
    let mut st = st;
    st.opts = no_values_exec(leaf.opts.len());
    match scan_leaf_exec(&leaf.opts, &g.globals, toks, start, &mut st) {
        Err(e) => Err(e),
        Ok(()) => match check_leaf_exec(leaf, &st.opts, &st.pos) {
            Err(e) => Err(e),
            Ok(()) => Ok(Parsed { command: c, sub: s, globals: st.globals, opts: st.opts, pos: st.pos }),
        },
    }
}

/// Parses the command line `toks` (its first token, the program's name, is
/// skipped) by the grammar `g`.
pub fn parse(g: &Grammar, toks: &[&str]) -> (r: Result<Parsed, ParseError>)
    ensures
        match spec_parse(g@, tokens_view(toks@)) {
            Ok(p) => r is Ok && r->Ok_0@ == p,
            Err(e) => r == Err::<Parsed, ParseError>(e),
        },
        r matches Ok(pp) ==> parsed_wf(g@, pp@),
{
    let ghost tv = tokens_view(toks@);
    let mut st = Scan { globals: no_values_exec(g.globals.len()), opts: Vec::new(), pos: Vec::new(), raw: false };
    assert(st@ =~= ScanSpec { globals: no_values(g@.globals.len()), opts: seq![], pos: seq![], raw: false });
    let i = match scan_prefix_exec(&g.globals, toks, 1, &mut st) {
        Err(e) => {
            return Err(e);
        },
        Ok(i) => i,
    };
    if i >= toks.len() {
        return Err(ParseError::MissingSubcommand);
    }
    assert(tv[i as int] == toks@[i as int]@);
    if str_eq(toks[i], "help") {
        return Err(ParseError::HelpRequested);
    }
    let c = match find_command_exec(&g.commands, toks[i]) {
        None => {
            return Err(ParseError::UnknownSubcommand { index: i });
        },
        Some(c) => c,
    };
    assert(g@.commands[c as int] == g.commands@[c as int]@);
    match &g.commands[c] {
        CommandDef::Leaf(leaf) => finish_leaf_exec(g, leaf, toks, i + 1, st, c, 0),
        CommandDef::Group(grp) => {
            let j = match scan_prefix_exec(&g.globals, toks, i + 1, &mut st) {
                Err(e) => {
                    return Err(e);
                },
                Ok(j) => j,
            };
            if j >= toks.len() {
                return Err(ParseError::MissingSubcommand);
            }
            assert(tv[j as int] == toks@[j as int]@);
            if str_eq(toks[j], "help") {
                return Err(ParseError::HelpRequested);
            }
            match find_leaf_exec(&grp.subs, toks[j]) {
                None => Err(ParseError::UnknownSubcommand { index: j }),
                Some(s) => {
                    assert(grp@.subs[s as int] == grp.subs@[s as int]@);
                    finish_leaf_exec(g, &grp.subs[s], toks, j + 1, st, c, s)
                },
            }
        },
    }
}


// ---------------------------------------------------------------------------
// Reading a parse
// ---------------------------------------------------------------------------

/// The parse `p` satisfies every rule of command `l`.
pub open spec fn leaf_ok(l: LeafSpec, p: ParsedSpec) -> bool {
    &&& p.opts.len() == l.opts.len()
    &&& check_leaf(l, p.opts, p.pos) == Ok::<(), ParseError>(())
}

/// The parse `p` names a command of `g` and satisfies its rules.
pub open spec fn parsed_wf(g: GrammarSpec, p: ParsedSpec) -> bool {
    &&& p.globals.len() == g.globals.len()
    &&& p.command < g.commands.len()
    &&& match g.commands[p.command as int] {
        CommandSpec::Leaf(l) => p.sub == 0 && leaf_ok(l, p),
        CommandSpec::Group(gr) => p.sub < gr.subs.len() && leaf_ok(gr.subs[p.sub as int], p),
    }
}

/// The flag at `k` was given.
pub open spec fn flag_at(vals: Seq<Seq<Seq<char>>>, k: int) -> bool {
    vals[k].len() > 0
}

/// The value of the once-only option at `k`, if it was given.
pub open spec fn single_at(vals: Seq<Seq<Seq<char>>>, k: int) -> Option<Seq<char>> {
    if vals[k].len() > 0 {
        Some(vals[k][0])
    } else {
        None
    }
}

/// The command of a grammar that a parse selected, as a leaf.
pub open spec fn selected_leaf(g: GrammarSpec, p: ParsedSpec) -> LeafSpec {
    match g.commands[p.command as int] {
        CommandSpec::Leaf(l) => l,
        CommandSpec::Group(gr) => gr.subs[p.sub as int],
    }
}

/// The place, from `k` on, of the first option whose name is `long`; the
/// number of options where none is.
pub open spec fn option_named(opts: Seq<OptSpec>, long: Seq<char>, k: int) -> int
    decreases opts.len() - k,
{
    if k < 0 || k >= opts.len() {
        opts.len() as int
    } else if crate::text::same_text(opts[k].longs[0], long) {
        k
    } else {
        option_named(opts, long, k + 1)
    }
}

/// The selected command has an option named `long`.
pub open spec fn has_option(g: GrammarSpec, p: ParsedSpec, long: Seq<char>) -> bool {
    option_named(selected_leaf(g, p).opts, long, 0) < selected_leaf(g, p).opts.len()
}

/// The values given to the option named `long` of the selected command.
pub open spec fn values_named(g: GrammarSpec, p: ParsedSpec, long: Seq<char>) -> Seq<Seq<char>> {
    p.opts[option_named(selected_leaf(g, p).opts, long, 0)]
}

/// The value given to the once-only option named `long`, if it was given.
pub open spec fn value_named(g: GrammarSpec, p: ParsedSpec, long: Seq<char>) -> Option<Seq<char>> {
    if values_named(g, p, long).len() > 0 {
        Some(values_named(g, p, long)[0])
    } else {
        None
    }
}

/// The flag named `long` of the selected command was given.
pub open spec fn flag_named(g: GrammarSpec, p: ParsedSpec, long: Seq<char>) -> bool {
    values_named(g, p, long).len() > 0
}

/// The grammar has a global option named `long`.
pub open spec fn has_global(g: GrammarSpec, long: Seq<char>) -> bool {
    option_named(g.globals, long, 0) < g.globals.len()
}

/// The values given to the global option named `long`.
pub open spec fn global_named(g: GrammarSpec, p: ParsedSpec, long: Seq<char>) -> Seq<Seq<char>> {
    p.globals[option_named(g.globals, long, 0)]
}

/// The value given to the once-only global option named `long`, if any.
pub open spec fn global_value_named(g: GrammarSpec, p: ParsedSpec, long: Seq<char>) -> Option<Seq<char>> {
    if global_named(g, p, long).len() > 0 {
        Some(global_named(g, p, long)[0])
    } else {
        None
    }
}

/// The global flag named `long` was given.
pub open spec fn global_flag_named(g: GrammarSpec, p: ParsedSpec, long: Seq<char>) -> bool {
    global_named(g, p, long).len() > 0
}

/// The positional at `i`, if there is one.
pub open spec fn pos_opt(pos: Seq<Seq<char>>, i: int) -> Option<Seq<char>> {
    if i < pos.len() {
        Some(pos[i])
    } else {
        None
    }
}

pub open spec fn opt_string_view(o: Option<String>) -> Option<Seq<char>> {
    match o {
        Some(s) => Some(s@),
        None => None,
    }
}

pub fn clone_string(s: &String) -> (r: String)
    ensures
        r@ == s@,
{
    s.clone()
}

pub fn clone_strings(v: &Vec<String>) -> (r: Vec<String>)
    ensures
        r.deep_view() == v.deep_view(),
{
    let mut r: Vec<String> = Vec::new();
    let mut i: usize = 0;
    while i < v.len()
        invariant
            i <= v.len(),
            r.deep_view() =~= v.deep_view().take(i as int),
        decreases v.len() - i,
    {
        let ghost prev = r.deep_view();
        r.push(clone_string(&v[i]));
        assert(r.deep_view() =~= prev.push(v.deep_view()[i as int]));
        assert(v.deep_view().take(i + 1) =~= v.deep_view().take(i as int).push(v.deep_view()[i as int]));
        i = i + 1;
    }
    assert(v.deep_view().take(v.len() as int) =~= v.deep_view());
    r
}

pub fn flag_at_exec(vals: &Vec<Vec<String>>, k: usize) -> (r: bool)
    requires
        k < vals.len(),
    ensures
        r == flag_at(vals.deep_view(), k as int),
{
    vals[k].len() > 0
}

pub fn single_at_exec(vals: &Vec<Vec<String>>, k: usize) -> (r: Option<String>)
    requires
        k < vals.len(),
    ensures
        opt_string_view(r) == single_at(vals.deep_view(), k as int),
{
    if vals[k].len() > 0 {
        Some(clone_string(&vals[k][0]))
    } else {
        None
    }
}

pub fn required_at_exec(vals: &Vec<Vec<String>>, k: usize) -> (r: String)
    requires
        k < vals.len(),
        vals.deep_view()[k as int].len() > 0,
    ensures
        r@ == vals.deep_view()[k as int][0],
{
    clone_string(&vals[k][0])
}

pub fn multi_at_exec(vals: &Vec<Vec<String>>, k: usize) -> (r: Vec<String>)
    requires
        k < vals.len(),
    ensures
        r.deep_view() == vals.deep_view()[k as int],
{
    clone_strings(&vals[k])
}

pub fn pos_at_exec(pos: &Vec<String>, i: usize) -> (r: String)
    requires
        i < pos.len(),
    ensures
        r@ == pos.deep_view()[i as int],
{
    clone_string(&pos[i])
}

pub fn pos_opt_exec(pos: &Vec<String>, i: usize) -> (r: Option<String>)
    ensures
        opt_string_view(r) == pos_opt(pos.deep_view(), i as int),
{
    if i < pos.len() {
        Some(clone_string(&pos[i]))
    } else {
        None
    }
}

pub fn pos_rest_exec(pos: &Vec<String>, i: usize) -> (r: Vec<String>)
    requires
        i <= pos.len(),
    ensures
        r.deep_view() == pos.deep_view().skip(i as int),
{
    let mut r: Vec<String> = Vec::new();
    let mut j: usize = i;
    while j < pos.len()
        invariant
            i <= j <= pos.len(),
            r.deep_view() =~= pos.deep_view().subrange(i as int, j as int),
        decreases pos.len() - j,
    {
        let ghost prev = r.deep_view();
        r.push(clone_string(&pos[j]));
        assert(r.deep_view() =~= prev.push(pos.deep_view()[j as int]));
        assert(pos.deep_view().subrange(i as int, j + 1) =~= pos.deep_view().subrange(i as int, j as int).push(pos.deep_view()[j as int]));
        j = j + 1;
    }
    assert(pos.deep_view().subrange(i as int, pos.len() as int) =~= pos.deep_view().skip(i as int));
    r
}

} // verus!
