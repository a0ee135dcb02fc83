//! Where the configuration file is: the `-c` / `--config` option of the
//! command line, or a fixed default path.
use crate::config::ConfigError;
use vstd::prelude::*;
use vstd::string::StringExecFns;

verus! {

#[verifier::external_type_specification]
#[verifier::external_body]
pub struct ExOptions(getopts::Options);

#[verifier::external_type_specification]
#[verifier::external_body]
pub struct ExMatches(getopts::Matches);

#[verifier::external_type_specification]
#[verifier::external_body]
pub struct ExFail(getopts::Fail);

/// One declared option: its short and long names, whether it takes a value,
/// and whether it may be given more than once.
pub struct OptionDecl {
    pub short: Seq<char>,
    pub long: Seq<char>,
    pub takes_value: bool,
    pub repeatable: bool,
}

/// What a parse reads from a set of options: the declarations in order,
/// whether free arguments may stand between options, and whether long
/// options may be written with a single dash.
pub struct OptionSet {
    pub decls: Seq<OptionDecl>,
    pub floating_frees: bool,
    pub long_only: bool,
}

/// The names, short and long, under which a set of options can be asked
/// about.
pub open spec fn option_names(s: OptionSet) -> Set<Seq<char>> {
    Set::new(
        |n: Seq<char>|
            exists|i: int|
                0 <= i < s.decls.len() && (#[trigger] s.decls[i].short == n || s.decls[i].long
                    == n),
    )
}

/// The texts of a list of command-line arguments.
pub open spec fn args_view(args: Seq<String>) -> Seq<Seq<char>> {
    args.map_values(|a: String| a@)
}

/// What a set of options holds.
pub uninterp spec fn declared_options(o: getopts::Options) -> OptionSet;

/// What a parse of command-line arguments against a set of options gives:
/// `None` where the arguments do not conform to the options, else the value
/// given to each option that took one, under each of its names.
pub uninterp spec fn cli_values(opts: OptionSet, args: Seq<Seq<char>>) -> Option<
    Map<Seq<char>, Seq<char>>,
>;

/// The names, short and long, that a parsed command line can be asked about.
pub uninterp spec fn matched_names(m: getopts::Matches) -> Set<Seq<char>>;

/// The value that a parsed command line gives to each option, under each
/// of its names, for the options that were given one.
pub uninterp spec fn matched_values(m: getopts::Matches) -> Map<Seq<char>, Seq<char>>;

/// Relies on `Options::new`: no option declared, free arguments allowed
/// between options, long options written with two dashes.
#[verifier::external_body]
fn new_options() -> (r: getopts::Options)
    ensures
        declared_options(r) == (OptionSet { decls: seq![], floating_frees: true, long_only: false }),
{
    getopts::Options::new()
}

/// Relies on `Options::optopt`: declares an optional option, given at most
/// once, that takes a value, under a one-character short name and a longer
/// long name (it panics on names of other lengths).
#[verifier::external_body]
fn declare_option(o: &mut getopts::Options, short: &str, long: &str, desc: &str, hint: &str)
    requires
        short@.len() == 1,
        (short@[0] as u32) < 128,
        long@.len() > 1,
    ensures
        declared_options(*final(o)) == (OptionSet {
            decls: declared_options(*old(o)).decls.push(
                OptionDecl { short: short@, long: long@, takes_value: true, repeatable: false },
            ),
            ..declared_options(*old(o))
        }),
{
    o.optopt(short, long, desc, hint);
}

/// Relies on `Options::optflag`: declares an optional flag, given at most
/// once and without a value, under a one-character short name and a longer
/// long name (it panics on names of other lengths).
#[verifier::external_body]
fn declare_flag(o: &mut getopts::Options, short: &str, long: &str, desc: &str)
    requires
        short@.len() == 1,
        (short@[0] as u32) < 128,
        long@.len() > 1,
    ensures
        declared_options(*final(o)) == (OptionSet {
            decls: declared_options(*old(o)).decls.push(
                OptionDecl { short: short@, long: long@, takes_value: false, repeatable: false },
            ),
            ..declared_options(*old(o))
        }),
{
    o.optflag(short, long, desc);
}

/// Relies on `Options::parse`: it fails exactly where the arguments do not
/// conform to the options, and on success the result answers for exactly
/// the declared options, with the values that the arguments give.
#[verifier::external_body]
fn parse_args(o: &getopts::Options, args: &Vec<String>) -> (r: Result<
    getopts::Matches,
    getopts::Fail,
>)
    ensures
        (r is Ok) == (cli_values(declared_options(*o), args_view(args@)) is Some),
        r matches Ok(m) ==> matched_names(m) == option_names(declared_options(*o))
            && matched_values(m) == cli_values(declared_options(*o), args_view(args@))->0,
{
    o.parse(args)
}

/// Relies on `Matches::opt_str`: the value given to an option, if any (it
/// panics on a name that was not declared).
#[verifier::external_body]
fn option_value(m: &getopts::Matches, name: &str) -> (r: Option<String>)
    requires
        matched_names(*m).contains(name@),
    ensures
        match r {
            Some(v) => matched_values(*m).contains_key(name@) && matched_values(*m)[name@] == v@,
            None => !matched_values(*m).contains_key(name@),
        },
{
    m.opt_str(name)
}

/// Relies on `Display` for `Fail`: a message that says what is wrong with
/// the command line.
#[verifier::external_body]
fn fail_message(f: &getopts::Fail) -> (r: String) {
    f.to_string()
}

/// The configuration file read where the command line names none.
pub open spec fn default_path() -> Seq<char> {
    "/home/system/etc/config.json"@
}

/// The path named by the value of the `config` option, or the default path.
pub open spec fn path_of(flag: Option<Seq<char>>) -> Seq<char> {
    match flag {
        Some(p) => p,
        None => default_path(),
    }
}

/// The options of the command line: `-c` / `--config` with a value, and
/// `-h` / `--help` without one.
pub open spec fn cli_options() -> OptionSet {
    OptionSet {
        decls: seq![
            OptionDecl { short: "c"@, long: "config"@, takes_value: true, repeatable: false },
            OptionDecl { short: "h"@, long: "help"@, takes_value: false, repeatable: false },
        ],
        floating_frees: true,
        long_only: false,
    }
}

/// The value of the `config` option among the values of a command line.
pub open spec fn config_flag(values: Map<Seq<char>, Seq<char>>) -> Option<Seq<char>> {
    if values.contains_key("c"@) {
        Some(values["c"@])
    } else {
        None
    }
}

/// The configuration file to read, given the value of the `config` option.
pub fn resolve_path(flag: Option<String>) -> (r: String)
    ensures
        r@ == path_of(
            match flag {
                Some(p) => Some(p@),
                None => None,
            },
        ),
{
    match flag {
        Some(p) => p,
        None => String::from_str("/home/system/etc/config.json"),
    }
}

/// The configuration file to read, from the command-line arguments that
/// follow the program name: the value of `-c` / `--config`, or the default
/// path. `-h` / `--help` is accepted and has no effect here. Fails with
/// `Usage` where the arguments do not match these options.
pub fn config_path(args: &Vec<String>) -> (r: Result<String, ConfigError>)
    ensures
        (r is Ok) == (cli_values(cli_options(), args_view(args@)) is Some),
        r matches Ok(p) ==> p@ == path_of(config_flag(cli_values(cli_options(), args_view(args@))->0)),
        r is Err ==> r matches Err(ConfigError::Usage(_)),
{
    let mut opts = new_options();
    proof {
        reveal_strlit("c");
        reveal_strlit("config");
        reveal_strlit("h");
        reveal_strlit("help");
    }
    declare_option(&mut opts, "c", "config", "path to config file", "CONFIG");
    declare_flag(&mut opts, "h", "help", "print this help menu");
    assert(declared_options(opts).decls =~= cli_options().decls);
    assert(option_names(declared_options(opts)).contains("c"@)) by {
        assert(declared_options(opts).decls[0].short == "c"@);
    }
    let matches = match parse_args(&opts, args) {
        Ok(m) => m,
        Err(f) => return Err(ConfigError::Usage(fail_message(&f))),
    };
    Ok(resolve_path(option_value(&matches, "c")))
}

} // verus!
