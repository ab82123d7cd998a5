//! A plain command-line reader: flags straight into an [`Arguments`] value,
//! with the lines it prints along the way.
use vstd::prelude::*;
use vstd::string::*;
use crate::text::{
    ArgStep, ArgsOutcome, arg_key, arg_value, argument_parts, chars_of, chars_range_eq, concat_str, has_char,
    parse_i32, parse_i32_spec, push_str_copy, push_string, str_eq, string_from_range, strings_view,
};

verus! {

/// The arguments passed in from the command line.
pub struct Arguments {
    /// MySql query to run to generate the first table
    pub mysql_query_1: String,
    /// MySql query to run to generate the second table
    pub mysql_query_2: String,
    /// flag to generate new data in MySql
    pub generate_data: bool,
    /// flag to enable verbose output
    pub verbose: bool,
    /// flag to print version information
    pub version: bool,
    /// flag to print help information
    pub help: bool,
    /// flag to clean the sqlite database files up
    pub clean: bool,
    /// number of rows to generate in mysql
    pub number_of_rows_to_generate: i32,
    /// name of the first table to compare
    pub table_name_1: String,
    /// name of the second table to compare
    pub table_name_2: String,
    /// flag to create sqlite comparison files while in flight
    pub create_sqlite_comparison_files: bool,
    /// flag to use in memory sqlite database instead of file based
    pub in_memory_sqlite: bool,
    /// flag to auto select yes to all prompts
    pub auto_yes: bool,
}

/// Model of [`Arguments`].
pub struct ArgumentsView {
    pub mysql_query_1: Seq<char>,
    pub mysql_query_2: Seq<char>,
    pub generate_data: bool,
    pub verbose: bool,
    pub version: bool,
    pub help: bool,
    pub clean: bool,
    pub number_of_rows_to_generate: i32,
    pub table_name_1: Seq<char>,
    pub table_name_2: Seq<char>,
    pub create_sqlite_comparison_files: bool,
    pub in_memory_sqlite: bool,
    pub auto_yes: bool,
}

impl View for Arguments {
    type V = ArgumentsView;

    open spec fn view(&self) -> ArgumentsView {
        ArgumentsView {
            mysql_query_1: self.mysql_query_1@,
            mysql_query_2: self.mysql_query_2@,
            generate_data: self.generate_data,
            verbose: self.verbose,
            version: self.version,
            help: self.help,
            clean: self.clean,
            number_of_rows_to_generate: self.number_of_rows_to_generate,
            table_name_1: self.table_name_1@,
            table_name_2: self.table_name_2@,
            create_sqlite_comparison_files: self.create_sqlite_comparison_files,
            in_memory_sqlite: self.in_memory_sqlite,
            auto_yes: self.auto_yes,
        }
    }
}

/// Why the command line could not be read.
#[derive(PartialEq, Eq, Structural, Clone, Copy, Debug)]
pub enum ArgumentError {
    /// The value of `-gen=<n>` is not an `i32`.
    InvalidRowCount,
}

/// The arguments read and the lines printed while reading them.
pub struct ParsedArguments {
    pub arguments: Arguments,
    pub messages: Vec<String>,
}

/// The arguments before any flag is read; the table names carry the date stamp.
pub open spec fn initial_arguments(stamp: Seq<char>) -> ArgumentsView {
    ArgumentsView {
        mysql_query_1: Seq::empty(),
        mysql_query_2: Seq::empty(),
        generate_data: false,
        verbose: false,
        version: false,
        help: false,
        clean: true,
        number_of_rows_to_generate: 0,
        table_name_1: "table_1"@ + stamp,
        table_name_2: "table_2"@ + stamp,
        create_sqlite_comparison_files: true,
        in_memory_sqlite: false,
        auto_yes: false,
    }
}

/// The lines of the help message.
pub open spec fn help_lines() -> Seq<Seq<char>> {
    seq![
        "Help requested! This is a tool to help compare large data sets between mysql and sqlite"@,
        "Usage: data_comparison"@,
        "\t-h : print this help message"@,
        "\t-help : print this help message"@,
        "\t-q1=<query> : specify a first mysql query to run"@,
        "\t-q2=<query> : specify a second mysql query to run"@,
        "\t-gen : generate new data in mysql"@,
        "\t-verbose : verbose output"@,
        "\t-version : print version information"@,
        "\t-c : clean sqlite database"@,
        "\t-t1=<table_name> : specify the name of the first table to compare"@,
        "\t-t2=<table_name> : specify the name of the second table to compare"@,
        "\t-in-memory : use an in memory sqlite database instead of file based"@,
        "\t-create-in-flight : create sqlite comparison files while in flight"@,
        "\t-auto-yes : automatically answer yes to all prompts"@,
    ]
}

/// The state of the reading: the arguments so far and the lines printed.
pub struct ParseState {
    pub args: ArgumentsView,
    pub messages: Seq<Seq<char>>,
}

/// The reading state with one more printed line.
pub open spec fn say(s: ParseState, a: ArgumentsView, line: Seq<char>) -> ParseState {
    ParseState { args: a, messages: s.messages.push(line) }
}

/// What one argument does. `flag=value` arguments set `-q` and `-q1` (the
/// first query), `-q2` (the second query), `-gen`, `-t1` and `-t2` (table
/// names get the date stamp appended); the other flags switch an
/// option on. Each prints a line, except `-gen=<n>`; `-h` and `-help` print
/// the help message, `-version` the version. Anything else prints
/// "Unknown argument:" and the argument.
pub open spec fn parse_step(s: ParseState, arg: Seq<char>, stamp: Seq<char>, version: Seq<char>) -> ArgStep<
    ParseState,
    ArgumentError,
> {
    let a = s.args;
    if has_char(arg, '=') {
        let key = arg_key(arg);
        let value = arg_value(arg);
        if key == "-q"@ {
            ArgStep::Continue(say(s, ArgumentsView { mysql_query_1: value, ..a }, "query: "@ + value))
        } else if key == "-q1"@ {
            ArgStep::Continue(say(s, ArgumentsView { mysql_query_1: value, ..a }, "query 1: "@ + value))
        } else if key == "-q2"@ {
            ArgStep::Continue(say(s, ArgumentsView { mysql_query_2: value, ..a }, "query 2: "@ + value))
        } else if key == "-gen"@ {
            match parse_i32_spec(value) {
                Some(n) => ArgStep::Continue(
                    ParseState { args: ArgumentsView { generate_data: true, number_of_rows_to_generate: n, ..a }, ..s },
                ),
                None => ArgStep::Fail(ArgumentError::InvalidRowCount),
            }
        } else if key == "-t1"@ {
            ArgStep::Continue(
                say(s, ArgumentsView { table_name_1: value + stamp, ..a }, "table name 1: "@ + value + stamp),
            )
        } else if key == "-t2"@ {
            ArgStep::Continue(
                say(s, ArgumentsView { table_name_2: value + stamp, ..a }, "table name 2: "@ + value + stamp),
            )
        } else {
            ArgStep::Continue(say(s, a, "Unknown argument:"@ + arg))
        }
    } else if arg == "-help"@ || arg == "-h"@ {
        ArgStep::Continue(ParseState { args: ArgumentsView { help: true, ..a }, messages: s.messages + help_lines() })
    } else if arg == "-version"@ {
        ArgStep::Continue(say(s, ArgumentsView { version: true, ..a }, "version: "@ + version))
    } else if arg == "-verbose"@ {
        ArgStep::Continue(say(s, ArgumentsView { verbose: true, ..a }, "verbose output enabled"@))
    } else if arg == "-c"@ {
        ArgStep::Continue(say(s, ArgumentsView { clean: true, ..a }, "cleaning sqlite database files"@))
    } else if arg == "-g"@ {
        ArgStep::Continue(say(s, ArgumentsView { generate_data: true, ..a }, "generating data"@))
    } else if arg == "-in-memory"@ {
        ArgStep::Continue(say(s, ArgumentsView { in_memory_sqlite: true, ..a }, "using in memory sqlite database"@))
    } else if arg == "-create-in-flight"@ {
        ArgStep::Continue(
            say(
                s,
                ArgumentsView { create_sqlite_comparison_files: true, ..a },
                "creating sqlite comparison files while in flight"@,
            ),
        )
    } else if arg == "-auto-yes"@ {
        ArgStep::Continue(say(s, ArgumentsView { auto_yes: true, ..a }, "auto yes enabled"@))
    } else {
        ArgStep::Continue(say(s, a, "Unknown argument:"@ + arg))
    }
}

/// Reads the arguments one after another.
pub open spec fn parse_all(s: ParseState, args: Seq<Seq<char>>, stamp: Seq<char>, version: Seq<char>) -> ArgsOutcome<
    ParseState,
    ArgumentError,
>
    decreases args.len(),
{
    if args.len() == 0 {
        ArgsOutcome::Finished(s)
    } else {
        match parse_step(s, args[0], stamp, version) {
            ArgStep::Continue(s2) => parse_all(s2, args.drop_first(), stamp, version),
            ArgStep::Stop(s2) => ArgsOutcome::Stopped(s2),
            ArgStep::Fail(e) => ArgsOutcome::Failed(e),
        }
    }
}

/// The reading of a whole command line: the first argument (the program
/// name) is skipped.
pub open spec fn parse_arguments_spec(args: Seq<Seq<char>>, stamp: Seq<char>, version: Seq<char>) -> Result<
    ParseState,
    ArgumentError,
> {
    let start = ParseState { args: initial_arguments(stamp), messages: Seq::empty() };
    let rest = if args.len() == 0 { args } else { args.drop_first() };
    match parse_all(start, rest, stamp, version) {
        ArgsOutcome::Finished(s) => Ok(s),
        ArgsOutcome::Stopped(s) => Ok(s),
        ArgsOutcome::Failed(e) => Err(e),
    }
}

/// The model of a reading result.
pub open spec fn parsed_view(r: Result<ParsedArguments, ArgumentError>) -> Result<ParseState, ArgumentError> {
    match r {
        Ok(p) => Ok(ParseState { args: p.arguments@, messages: strings_view(p.messages@) }),
        Err(e) => Err(e),
    }
}

/// The lines of the help message.
pub fn print_help() -> (lines: Vec<String>)
    ensures
        strings_view(lines@) == help_lines(),
{
    let mut lines: Vec<String> = Vec::new();
    push_str_copy(&mut lines, "Help requested! This is a tool to help compare large data sets between mysql and sqlite");
    push_str_copy(&mut lines, "Usage: data_comparison");
    push_str_copy(&mut lines, "\t-h : print this help message");
    push_str_copy(&mut lines, "\t-help : print this help message");
    push_str_copy(&mut lines, "\t-q1=<query> : specify a first mysql query to run");
    push_str_copy(&mut lines, "\t-q2=<query> : specify a second mysql query to run");
    push_str_copy(&mut lines, "\t-gen : generate new data in mysql");
    push_str_copy(&mut lines, "\t-verbose : verbose output");
    push_str_copy(&mut lines, "\t-version : print version information");
    push_str_copy(&mut lines, "\t-c : clean sqlite database");
    push_str_copy(&mut lines, "\t-t1=<table_name> : specify the name of the first table to compare");
    push_str_copy(&mut lines, "\t-t2=<table_name> : specify the name of the second table to compare");
    push_str_copy(&mut lines, "\t-in-memory : use an in memory sqlite database instead of file based");
    push_str_copy(&mut lines, "\t-create-in-flight : create sqlite comparison files while in flight");
    push_str_copy(&mut lines, "\t-auto-yes : automatically answer yes to all prompts");
    assert(strings_view(lines@) =~= help_lines());
    lines
}

fn say_string(messages: &mut Vec<String>, line: String)
    ensures
        strings_view(final(messages)@) == strings_view(old(messages)@).push(line@),
{
    push_string(messages, line);
}

fn append_help(messages: &mut Vec<String>)
    ensures
        strings_view(final(messages)@) == strings_view(old(messages)@) + help_lines(),
{
    let mut help = print_help();
    crate::text::append_strings(messages, &mut help);
}

/// Applies one argument.
fn parse_one(arguments: &mut Arguments, messages: &mut Vec<String>, arg: &String, stamp: &str, version: &str) -> (r: Result<(), ArgumentError>)
    ensures
        match parse_step(
            ParseState { args: old(arguments)@, messages: strings_view(old(messages)@) },
            arg@,
            stamp@,
            version@,
        ) {
            ArgStep::Continue(s2) => r is Ok && final(arguments)@ == s2.args && strings_view(final(messages)@) == s2.messages,
            ArgStep::Stop(_) => false,
            ArgStep::Fail(e) => r == Err::<(), ArgumentError>(e),
        },
{
    let chars = chars_of(arg.as_str());
    match argument_parts(&chars) {
        Some((k, m)) => {
            let value = string_from_range(&chars, k + 1, m);
            if chars_range_eq(&chars, 0, k, "-q") {
                say_string(messages, concat_str("query: ", value.as_str()));
                arguments.mysql_query_1 = value;
            } else if chars_range_eq(&chars, 0, k, "-q1") {
                say_string(messages, concat_str("query 1: ", value.as_str()));
                arguments.mysql_query_1 = value;
            } else if chars_range_eq(&chars, 0, k, "-q2") {
                say_string(messages, concat_str("query 2: ", value.as_str()));
                arguments.mysql_query_2 = value;
            } else if chars_range_eq(&chars, 0, k, "-gen") {
                match parse_i32(value.as_str()) {
                    Some(n) => {
                        arguments.generate_data = true;
                        arguments.number_of_rows_to_generate = n;
                    },
                    None => {
                        return Err(ArgumentError::InvalidRowCount);
                    },
                }
            } else if chars_range_eq(&chars, 0, k, "-t1") {
                let ghost v = value@;
                let mut name = value;
                name.append(stamp);
                say_string(messages, concat_str("table name 1: ", name.as_str()));
                assert("table name 1: "@ + name@ =~= "table name 1: "@ + v + stamp@);
                arguments.table_name_1 = name;
            } else if chars_range_eq(&chars, 0, k, "-t2") {
                let ghost v = value@;
                let mut name = value;
                name.append(stamp);
                say_string(messages, concat_str("table name 2: ", name.as_str()));
                assert("table name 2: "@ + name@ =~= "table name 2: "@ + v + stamp@);
                arguments.table_name_2 = name;
            } else {
                say_string(messages, concat_str("Unknown argument:", arg.as_str()));
            }
        },
        None => {
            let a = arg.as_str();
            if str_eq(a, "-help") || str_eq(a, "-h") {
                arguments.help = true;
                append_help(messages);
            } else if str_eq(a, "-version") {
                arguments.version = true;
                say_string(messages, concat_str("version: ", version));
            } else if str_eq(a, "-verbose") {
                arguments.verbose = true;
                push_str_copy(messages, "verbose output enabled");
            } else if str_eq(a, "-c") {
                arguments.clean = true;
                push_str_copy(messages, "cleaning sqlite database files");
            } else if str_eq(a, "-g") {
                arguments.generate_data = true;
                push_str_copy(messages, "generating data");
            } else if str_eq(a, "-in-memory") {
                arguments.in_memory_sqlite = true;
                push_str_copy(messages, "using in memory sqlite database");
            } else if str_eq(a, "-create-in-flight") {
                arguments.create_sqlite_comparison_files = true;
                push_str_copy(messages, "creating sqlite comparison files while in flight");
            } else if str_eq(a, "-auto-yes") {
                arguments.auto_yes = true;
                push_str_copy(messages, "auto yes enabled");
            } else {
                say_string(messages, concat_str("Unknown argument:", a));
            }
        },
    }
    Ok(())
}

/// Reads the command line `args` (the program name first, as
/// `std::env::args` lists it). `date_stamp` is appended to the table names
/// and `version` is what `-version` prints.
pub fn parse_arguments(args: &Vec<String>, date_stamp: &str, version: &str) -> (r: Result<ParsedArguments, ArgumentError>)
    ensures
        parsed_view(r) == parse_arguments_spec(strings_view(args@), date_stamp@, version@),
{
    let mut arguments = Arguments {
        mysql_query_1: String::new(),
        mysql_query_2: String::new(),
        generate_data: false,
        verbose: false,
        version: false,
        help: false,
        clean: true,
        number_of_rows_to_generate: 0,
        table_name_1: concat_str("table_1", date_stamp),
        table_name_2: concat_str("table_2", date_stamp),
        create_sqlite_comparison_files: true,
        in_memory_sqlite: false,
        auto_yes: false,
    };
    let mut messages: Vec<String> = Vec::new();
    let ghost all = strings_view(args@);
    let ghost start = ParseState { args: arguments@, messages: strings_view(messages@) };
    assert(start.args =~= initial_arguments(date_stamp@));
    assert(start.messages =~= Seq::<Seq<char>>::empty());
    if args.len() == 0 {
        return Ok(ParsedArguments { arguments, messages });
    }
    let mut i: usize = 1;
    assert(all.drop_first() =~= all.skip(1));
    while i < args.len()
        invariant
            1 <= i <= args@.len(),
            all == strings_view(args@),
            all.len() > 0,
            all.drop_first() == all.skip(1),
            start.args == initial_arguments(date_stamp@),
            start.messages == Seq::<Seq<char>>::empty(),
            parse_all(start, all.skip(1), date_stamp@, version@) == parse_all(
                ParseState { args: arguments@, messages: strings_view(messages@) },
                all.skip(i as int),
                date_stamp@,
                version@,
            ),
        decreases args@.len() - i,
    {
        let ghost rest = all.skip(i as int);
        assert(rest[0] == args@[i as int]@);
        assert(rest.drop_first() =~= all.skip(i + 1));
        match parse_one(&mut arguments, &mut messages, &args[i], date_stamp, version) {
            Ok(()) => {},
            Err(e) => {
                return Err(e);
            },
        }
        i = i + 1;
    }
    assert(all.skip(i as int) =~= Seq::<Seq<char>>::empty());
    Ok(ParsedArguments { arguments, messages })
}

} // verus!

verus! {

/// The `flag=value` arguments each set their own field and print one line:
/// `-t1` and `-t2` name a table (the date stamp appended), `-q` and `-q1`
/// set the first query, `-q2` the second; nothing else changes.
pub proof fn lemma_value_flags_set_their_field(s: ParseState, v: Seq<char>, stamp: Seq<char>, version: Seq<char>)
    requires
        !has_char(v, '='),
    ensures
        parse_step(s, "-t1="@ + v, stamp, version) == ArgStep::<ParseState, ArgumentError>::Continue(
            ParseState {
                args: ArgumentsView { table_name_1: v + stamp, ..s.args },
                messages: s.messages.push("table name 1: "@ + v + stamp),
            },
        ),
        parse_step(s, "-t2="@ + v, stamp, version) == ArgStep::<ParseState, ArgumentError>::Continue(
            ParseState {
                args: ArgumentsView { table_name_2: v + stamp, ..s.args },
                messages: s.messages.push("table name 2: "@ + v + stamp),
            },
        ),
        parse_step(s, "-q="@ + v, stamp, version) == ArgStep::<ParseState, ArgumentError>::Continue(
            ParseState { args: ArgumentsView { mysql_query_1: v, ..s.args }, messages: s.messages.push("query: "@ + v) },
        ),
        parse_step(s, "-q1="@ + v, stamp, version) == ArgStep::<ParseState, ArgumentError>::Continue(
            ParseState {
                args: ArgumentsView { mysql_query_1: v, ..s.args },
                messages: s.messages.push("query 1: "@ + v),
            },
        ),
        parse_step(s, "-q2="@ + v, stamp, version) == ArgStep::<ParseState, ArgumentError>::Continue(
            ParseState {
                args: ArgumentsView { mysql_query_2: v, ..s.args },
                messages: s.messages.push("query 2: "@ + v),
            },
        ),
{
    reveal_strlit("-t1");
    reveal_strlit("-t2");
    reveal_strlit("-q");
    reveal_strlit("-q1");
    reveal_strlit("-q2");
    reveal_strlit("-gen");
    reveal_strlit("-t1=");
    reveal_strlit("-t2=");
    reveal_strlit("-q=");
    reveal_strlit("-q1=");
    reveal_strlit("-q2=");
    reveal_strlit("=");
    assert("-t1="@ =~= "-t1"@ + "="@);
    assert("-t2="@ =~= "-t2"@ + "="@);
    assert("-q="@ =~= "-q"@ + "="@);
    assert("-q1="@ =~= "-q1"@ + "="@);
    assert("-q2="@ =~= "-q2"@ + "="@);
    crate::text::lemma_key_value_split("-t1"@, v);
    crate::text::lemma_key_value_split("-t2"@, v);
    crate::text::lemma_key_value_split("-q"@, v);
    crate::text::lemma_key_value_split("-q1"@, v);
    crate::text::lemma_key_value_split("-q2"@, v);
    assert("-t1"@[2] != "-t2"@[2]);
    assert("-t1"@[1] != "-q1"@[1]);
    assert("-t2"@[1] != "-q1"@[1]);
    assert("-t1"@[1] != "-q2"@[1]);
    assert("-t2"@[1] != "-q2"@[1]);
    assert("-q1"@[2] != "-q2"@[2]);
}

/// The flags that switch an option on each set it to `true`, whatever it
/// was, change nothing else, and print their line: `-verbose`, `-c`, `-g`,
/// `-in-memory`, `-create-in-flight`, `-auto-yes`; `-version` prints the
/// version and `-h` the help message.
pub proof fn lemma_switch_flags_turn_their_field_on(s: ParseState, stamp: Seq<char>, version: Seq<char>)
    ensures
        parse_step(s, "-verbose"@, stamp, version) == ArgStep::<ParseState, ArgumentError>::Continue(
            ParseState {
                args: ArgumentsView { verbose: true, ..s.args },
                messages: s.messages.push("verbose output enabled"@),
            },
        ),
        parse_step(s, "-c"@, stamp, version) == ArgStep::<ParseState, ArgumentError>::Continue(
            ParseState {
                args: ArgumentsView { clean: true, ..s.args },
                messages: s.messages.push("cleaning sqlite database files"@),
            },
        ),
        parse_step(s, "-g"@, stamp, version) == ArgStep::<ParseState, ArgumentError>::Continue(
            ParseState {
                args: ArgumentsView { generate_data: true, ..s.args },
                messages: s.messages.push("generating data"@),
            },
        ),
        parse_step(s, "-in-memory"@, stamp, version) == ArgStep::<ParseState, ArgumentError>::Continue(
            ParseState {
                args: ArgumentsView { in_memory_sqlite: true, ..s.args },
                messages: s.messages.push("using in memory sqlite database"@),
            },
        ),
        parse_step(s, "-create-in-flight"@, stamp, version) == ArgStep::<ParseState, ArgumentError>::Continue(
            ParseState {
                args: ArgumentsView { create_sqlite_comparison_files: true, ..s.args },
                messages: s.messages.push("creating sqlite comparison files while in flight"@),
            },
        ),
        parse_step(s, "-auto-yes"@, stamp, version) == ArgStep::<ParseState, ArgumentError>::Continue(
            ParseState { args: ArgumentsView { auto_yes: true, ..s.args }, messages: s.messages.push("auto yes enabled"@) },
        ),
        parse_step(s, "-version"@, stamp, version) == ArgStep::<ParseState, ArgumentError>::Continue(
            ParseState { args: ArgumentsView { version: true, ..s.args }, messages: s.messages.push("version: "@ + version) },
        ),
        parse_step(s, "-h"@, stamp, version) == ArgStep::<ParseState, ArgumentError>::Continue(
            ParseState { args: ArgumentsView { help: true, ..s.args }, messages: s.messages + help_lines() },
        ),
{
    reveal_strlit("-h");
    reveal_strlit("-help");
    reveal_strlit("-version");
    reveal_strlit("-verbose");
    reveal_strlit("-c");
    reveal_strlit("-g");
    reveal_strlit("-in-memory");
    reveal_strlit("-create-in-flight");
    reveal_strlit("-auto-yes");
    crate::text::lemma_no_equals_sign("-h"@);
    crate::text::lemma_no_equals_sign("-version"@);
    crate::text::lemma_no_equals_sign("-verbose"@);
    crate::text::lemma_no_equals_sign("-c"@);
    crate::text::lemma_no_equals_sign("-g"@);
    crate::text::lemma_no_equals_sign("-in-memory"@);
    crate::text::lemma_no_equals_sign("-create-in-flight"@);
    crate::text::lemma_no_equals_sign("-auto-yes"@);
    assert("-verbose"@[5] != "-version"@[5]);
    assert("-c"@[1] != "-h"@[1]);
    assert("-g"@[1] != "-h"@[1]);
    assert("-g"@[1] != "-c"@[1]);
    assert("-in-memory"@[1] != "-create-in-flight"@[1]);
}

} // verus!
