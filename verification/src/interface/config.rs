//! The settings of a comparison run: where the two tables come from, what to
//! write out, and how to log.
use vstd::prelude::*;
use vstd::string::*;
use crate::interface::log_options::LogOutput;
use crate::text::{
    append_strings, arg_key, arg_value, argument_parts, chars_of, chars_range_eq, has_char, parse_i32,
    parse_i32_spec, push_str_copy, str_eq, string_from_range, strings_view, ArgStep, ArgsOutcome, StepKind,
    bool_text, concat_str, int_text, push_bool, push_int, push_string,
};

verus! {

/// The kind of database a table lives in.
#[derive(PartialEq, Eq, Structural, Clone, Copy, Debug)]
pub enum DatabaseType {
    MySql,
    Sqlite,
}

/// The format of the comparison output file.
#[derive(PartialEq, Eq, Structural, Clone, Copy, Debug)]
pub enum OutputFileType {
    Csv,
    Json,
}

/// All settings of a run.
pub struct Config {
    pub comparison_options: ComparisonOptions,
    pub log_config: LogConfig,
    pub database_1_config: DatabaseConfig,
    pub database_2_config: DatabaseConfig,
    pub data_generation: DataGeneration,
    pub globals: Globals,
}

/// Settings that concern the whole program.
pub struct Globals {
    pub tui: bool,
    pub version: bool,
    pub config_file_path: String,
}

/// Settings of the comparison itself.
pub struct ComparisonOptions {
    pub output_file_name: String,
    pub output_file_type: OutputFileType,
    pub create_sqlite_comparison_files: bool,
    pub in_memory_sqlite: bool,
    pub clean: bool,
}

/// Settings of the log.
pub struct LogConfig {
    pub log_file: String,
    pub log_level: String,
    pub verbose: bool,
    pub help: bool,
    pub auto_yes: bool,
    pub log_output_type: LogOutput,
}

/// Where one of the two tables lives and how to reach it.
pub struct DatabaseConfig {
    pub db_name: String,
    pub db_user: String,
    pub db_password: String,
    pub db_host: String,
    pub db_port: u16,
    pub table_name: String,
    pub query: String,
    pub database_type: DatabaseType,
}

/// Settings of the random test data generation.
#[derive(PartialEq, Eq, Structural, Clone, Copy, Debug)]
pub struct DataGeneration {
    pub generate_data: bool,
    pub number_of_rows_to_generate: i32,
    pub clean: bool,
}

/// Model of [`Globals`].
pub struct GlobalsView {
    pub tui: bool,
    pub version: bool,
    pub config_file_path: Seq<char>,
}

/// Model of [`ComparisonOptions`].
pub struct ComparisonOptionsView {
    pub output_file_name: Seq<char>,
    pub output_file_type: OutputFileType,
    pub create_sqlite_comparison_files: bool,
    pub in_memory_sqlite: bool,
    pub clean: bool,
}

/// Model of [`LogConfig`].
pub struct LogConfigView {
    pub log_file: Seq<char>,
    pub log_level: Seq<char>,
    pub verbose: bool,
    pub help: bool,
    pub auto_yes: bool,
    pub log_output_type: LogOutput,
}

/// Model of [`DatabaseConfig`].
pub struct DatabaseConfigView {
    pub db_name: Seq<char>,
    pub db_user: Seq<char>,
    pub db_password: Seq<char>,
    pub db_host: Seq<char>,
    pub db_port: u16,
    pub table_name: Seq<char>,
    pub query: Seq<char>,
    pub database_type: DatabaseType,
}

/// Model of [`Config`].
pub struct ConfigView {
    pub comparison_options: ComparisonOptionsView,
    pub log_config: LogConfigView,
    pub database_1_config: DatabaseConfigView,
    pub database_2_config: DatabaseConfigView,
    pub data_generation: DataGeneration,
    pub globals: GlobalsView,
}

impl View for Globals {
    type V = GlobalsView;

    open spec fn view(&self) -> GlobalsView {
        GlobalsView { tui: self.tui, version: self.version, config_file_path: self.config_file_path@ }
    }
}

impl View for ComparisonOptions {
    type V = ComparisonOptionsView;

    open spec fn view(&self) -> ComparisonOptionsView {
        ComparisonOptionsView {
            output_file_name: self.output_file_name@,
            output_file_type: self.output_file_type,
            create_sqlite_comparison_files: self.create_sqlite_comparison_files,
            in_memory_sqlite: self.in_memory_sqlite,
            clean: self.clean,
        }
    }
}

impl View for LogConfig {
    type V = LogConfigView;

    open spec fn view(&self) -> LogConfigView {
        LogConfigView {
            log_file: self.log_file@,
            log_level: self.log_level@,
            verbose: self.verbose,
            help: self.help,
            auto_yes: self.auto_yes,
            log_output_type: self.log_output_type,
        }
    }
}

impl View for DatabaseConfig {
    type V = DatabaseConfigView;

    open spec fn view(&self) -> DatabaseConfigView {
        DatabaseConfigView {
            db_name: self.db_name@,
            db_user: self.db_user@,
            db_password: self.db_password@,
            db_host: self.db_host@,
            db_port: self.db_port,
            table_name: self.table_name@,
            query: self.query@,
            database_type: self.database_type,
        }
    }
}

impl View for Config {
    type V = ConfigView;

    open spec fn view(&self) -> ConfigView {
        ConfigView {
            comparison_options: self.comparison_options@,
            log_config: self.log_config@,
            database_1_config: self.database_1_config@,
            database_2_config: self.database_2_config@,
            data_generation: self.data_generation,
            globals: self.globals@,
        }
    }
}

/// The empty connection settings that both tables start from.
pub open spec fn default_database_view() -> DatabaseConfigView {
    DatabaseConfigView {
        db_name: Seq::empty(),
        db_user: Seq::empty(),
        db_password: Seq::empty(),
        db_host: Seq::empty(),
        db_port: 3306,
        table_name: Seq::empty(),
        query: Seq::empty(),
        database_type: DatabaseType::MySql,
    }
}

/// The default settings, with `stamp` as the date stamp of the output file name.
pub open spec fn default_view(stamp: Seq<char>) -> ConfigView {
    ConfigView {
        globals: GlobalsView {
            tui: false,
            version: false,
            config_file_path: "src/comparison_default.toml"@,
        },
        data_generation: DataGeneration {
            generate_data: false,
            number_of_rows_to_generate: 0,
            clean: false,
        },
        comparison_options: ComparisonOptionsView {
            output_file_name: "comparison_output_"@ + stamp + ".csv"@,
            output_file_type: OutputFileType::Csv,
            create_sqlite_comparison_files: true,
            in_memory_sqlite: true,
            clean: true,
        },
        log_config: LogConfigView {
            log_file: "test.log"@,
            log_level: "DEBUG"@,
            verbose: true,
            help: false,
            auto_yes: false,
            log_output_type: LogOutput::File,
        },
        database_1_config: default_database_view(),
        database_2_config: default_database_view(),
    }
}

fn default_database() -> (d: DatabaseConfig)
    ensures
        d@ == default_database_view(),
{
    let d = DatabaseConfig {
        db_name: String::new(),
        db_user: String::new(),
        db_password: String::new(),
        db_host: String::new(),
        db_port: 3306,
        table_name: String::new(),
        query: String::new(),
        database_type: DatabaseType::MySql,
    };
    assert(d@ =~= default_database_view());
    d
}

impl Config {
    /// The default settings, with `date_stamp` in the name of the output file.
    pub fn default_at(date_stamp: &str) -> (c: Config)
        ensures
            c@ == default_view(date_stamp@),
    {
        let mut output_file_name = String::from_str("comparison_output_");
        output_file_name.append(date_stamp);
        output_file_name.append(".csv");
        let c = Config {
            globals: Globals {
                tui: false,
                version: false,
                config_file_path: String::from_str("src/comparison_default.toml"),
            },
            data_generation: DataGeneration {
                generate_data: false,
                number_of_rows_to_generate: 0,
                clean: false,
            },
            comparison_options: ComparisonOptions {
                output_file_name,
                output_file_type: OutputFileType::Csv,
                create_sqlite_comparison_files: true,
                in_memory_sqlite: true,
                clean: true,
            },
            log_config: LogConfig {
                log_file: String::from_str("test.log"),
                log_level: String::from_str("DEBUG"),
                verbose: true,
                help: false,
                auto_yes: false,
                log_output_type: LogOutput::File,
            },
            database_1_config: default_database(),
            database_2_config: default_database(),
        };
        assert(c@.comparison_options =~= default_view(date_stamp@).comparison_options);
        assert(c@.globals =~= default_view(date_stamp@).globals);
        assert(c@.log_config =~= default_view(date_stamp@).log_config);
        c
    }
}

impl Default for Config {
    /// The default settings, stamped with the current local time.
    fn default() -> (c: Config)
        ensures
            exists|stamp: Seq<char>| c@ == default_view(stamp),
    {
        let stamp = crate::clock::date_stamp();
        Config::default_at(stamp.as_str())
    }
}

/// The error `msg` when something is missing, nothing otherwise.
pub open spec fn error_if(missing: bool, msg: Seq<char>) -> Seq<Seq<char>> {
    if missing { seq![msg] } else { Seq::empty() }
}

/// What validation says of a table's connection settings: one message per
/// empty database name, user, password, host and table name, in that order.
pub open spec fn db_config_errors(d: DatabaseConfigView) -> Seq<Seq<char>> {
    error_if(d.db_name.len() == 0, "empty database name"@) + error_if(d.db_user.len() == 0, "empty database user"@)
        + error_if(d.db_password.len() == 0, "empty database password"@) + error_if(
        d.db_host.len() == 0,
        "empty database host"@,
    ) + error_if(d.table_name.len() == 0, "empty table name"@)
}

/// What validation says of settings: the messages of the first table, then
/// those of the second.
pub open spec fn config_errors(c: ConfigView) -> Seq<Seq<char>> {
    db_config_errors(c.database_1_config) + db_config_errors(c.database_2_config)
}

fn push_error_if(errors: &mut Vec<String>, missing: bool, msg: &str)
    ensures
        strings_view(final(errors)@) == strings_view(old(errors)@) + error_if(missing, msg@),
{
    if missing {
        push_str_copy(errors, msg);
    } else {
        assert(strings_view(errors@) =~= strings_view(errors@) + Seq::<Seq<char>>::empty());
    }
}

impl Config {
    /// What is missing in a table's connection settings.
    pub fn validate_db_config(config: &DatabaseConfig) -> (errors: Vec<String>)
        ensures
            strings_view(errors@) == db_config_errors(config@),
    {
        let mut errors: Vec<String> = Vec::new();
        push_error_if(&mut errors, config.db_name.as_str().is_empty(), "empty database name");
        push_error_if(&mut errors, config.db_user.as_str().is_empty(), "empty database user");
        push_error_if(&mut errors, config.db_password.as_str().is_empty(), "empty database password");
        push_error_if(&mut errors, config.db_host.as_str().is_empty(), "empty database host");
        push_error_if(&mut errors, config.table_name.as_str().is_empty(), "empty table name");
        assert(strings_view(errors@) =~= db_config_errors(config@));
        errors
    }

    /// What is missing in the settings of both tables.
    pub fn validate_config(config: &Config) -> (errors: Vec<String>)
        ensures
            strings_view(errors@) == config_errors(config@),
    {
        let mut errors = Config::validate_db_config(&config.database_1_config);
        let mut second = Config::validate_db_config(&config.database_2_config);
        append_strings(&mut errors, &mut second);
        errors
    }
}

/// Why settings could not be made.
#[derive(PartialEq, Eq, Structural, Clone, Copy, Debug)]
pub enum ConfigError {
    /// A configuration file was asked for with an empty path.
    EmptyConfigPath,
    /// The value of `-gen=<n>` is not an `i32`.
    InvalidRowCount,
    /// The settings were judged invalid ("Invalid configuration detected").
    InvalidConfiguration,
}

/// A table's connection settings with `table_name` replaced.
pub open spec fn with_table_name(d: DatabaseConfigView, table_name: Seq<char>) -> DatabaseConfigView {
    DatabaseConfigView { table_name, ..d }
}

/// A table's connection settings with `query` replaced.
pub open spec fn with_query(d: DatabaseConfigView, query: Seq<char>) -> DatabaseConfigView {
    DatabaseConfigView { query, ..d }
}

/// What one command-line argument does to the settings.
///
/// `flag=value` arguments set a value (`-t1`, `-t2`, `-q1`, `-q2`, `-output`,
/// `-config`, `-gen`); the other flags switch an option on, and `-h`, `-help`, `-tui`,
/// `-gen` and `-version` end the parsing. Unknown arguments are ignored.
pub open spec fn config_argument_step(c: ConfigView, arg: Seq<char>) -> ArgStep<ConfigView, ConfigError> {
    if has_char(arg, '=') {
        let key = arg_key(arg);
        let value = arg_value(arg);
        if key == "-t1"@ {
            ArgStep::Continue(ConfigView { database_1_config: with_table_name(c.database_1_config, value), ..c })
        } else if key == "-t2"@ {
            ArgStep::Continue(ConfigView { database_2_config: with_table_name(c.database_2_config, value), ..c })
        } else if key == "-q1"@ {
            ArgStep::Continue(ConfigView { database_1_config: with_query(c.database_1_config, value), ..c })
        } else if key == "-q2"@ {
            ArgStep::Continue(ConfigView { database_2_config: with_query(c.database_2_config, value), ..c })
        } else if key == "-output"@ {
            ArgStep::Continue(ConfigView {
                comparison_options: ComparisonOptionsView { output_file_name: value, ..c.comparison_options },
                ..c
            })
        } else if key == "-config"@ {
            ArgStep::Continue(ConfigView { globals: GlobalsView { config_file_path: value, ..c.globals }, ..c })
        } else if key == "-gen"@ {
            match parse_i32_spec(value) {
                Some(n) => ArgStep::Continue(ConfigView {
                    data_generation: DataGeneration {
                        generate_data: true,
                        number_of_rows_to_generate: n,
                        ..c.data_generation
                    },
                    ..c
                }),
                None => ArgStep::Fail(ConfigError::InvalidRowCount),
            }
        } else {
            ArgStep::Continue(c)
        }
    } else if arg == "-h"@ || arg == "-help"@ {
        ArgStep::Stop(ConfigView { log_config: LogConfigView { help: true, ..c.log_config }, ..c })
    } else if arg == "-tui"@ {
        ArgStep::Stop(ConfigView { globals: GlobalsView { tui: true, ..c.globals }, ..c })
    } else if arg == "-gen"@ {
        ArgStep::Stop(ConfigView { data_generation: DataGeneration { generate_data: true, ..c.data_generation }, ..c })
    } else if arg == "-verbose"@ {
        ArgStep::Continue(ConfigView { log_config: LogConfigView { verbose: true, ..c.log_config }, ..c })
    } else if arg == "-version"@ {
        ArgStep::Stop(ConfigView { globals: GlobalsView { version: true, ..c.globals }, ..c })
    } else if arg == "-c"@ {
        ArgStep::Continue(ConfigView {
            comparison_options: ComparisonOptionsView { clean: true, ..c.comparison_options },
            ..c
        })
    } else if arg == "-in-memory"@ {
        ArgStep::Continue(ConfigView {
            comparison_options: ComparisonOptionsView { in_memory_sqlite: true, ..c.comparison_options },
            ..c
        })
    } else if arg == "-create-in-flight"@ {
        ArgStep::Continue(ConfigView {
            comparison_options: ComparisonOptionsView { create_sqlite_comparison_files: true, ..c.comparison_options },
            ..c
        })
    } else if arg == "-auto-yes"@ {
        ArgStep::Continue(ConfigView { log_config: LogConfigView { auto_yes: true, ..c.log_config }, ..c })
    } else {
        ArgStep::Continue(c)
    }
}

/// Reads the arguments one after another, from the first.
pub open spec fn config_arguments_outcome(c: ConfigView, args: Seq<Seq<char>>) -> ArgsOutcome<ConfigView, ConfigError>
    decreases args.len(),
{
    if args.len() == 0 {
        ArgsOutcome::Finished(c)
    } else {
        match config_argument_step(c, args[0]) {
            ArgStep::Continue(c2) => config_arguments_outcome(c2, args.drop_first()),
            ArgStep::Stop(c2) => ArgsOutcome::Stopped(c2),
            ArgStep::Fail(e) => ArgsOutcome::Failed(e),
        }
    }
}

/// The settings that the command line gives, starting from the defaults
/// stamped with `stamp`. No arguments at all give the defaults; otherwise
/// the arguments are applied in order until one that ends the reading (help,
/// terminal interface, generation, version) or the last, and the settings are
/// returned as they then stand. An argument that is rejected gives its error.
pub open spec fn from_arguments_spec(args: Seq<Seq<char>>, stamp: Seq<char>) -> Result<ConfigView, ConfigError> {
    let c = default_view(stamp);
    if args.len() == 0 {
        Ok(c)
    } else {
        match config_arguments_outcome(c, args) {
            ArgsOutcome::Stopped(c2) => Ok(c2),
            ArgsOutcome::Finished(c2) => Ok(c2),
            ArgsOutcome::Failed(e) => Err(e),
        }
    }
}

/// The settings of a configuration file with the command line applied on top:
/// every argument overrides what the file says, in order, and the result is
/// then validated like any settings read from a file.
pub open spec fn merge_arguments_spec(file: ConfigView, args: Seq<Seq<char>>) -> Result<ConfigView, ConfigError> {
    match config_arguments_outcome(file, args) {
        ArgsOutcome::Stopped(c2) => from_config_file_spec(c2),
        ArgsOutcome::Finished(c2) => from_config_file_spec(c2),
        ArgsOutcome::Failed(e) => Err(e),
    }
}

/// The model of a result that holds settings.
pub open spec fn config_result_view(r: Result<Config, ConfigError>) -> Result<ConfigView, ConfigError> {
    match r {
        Ok(c) => Ok(c@),
        Err(e) => Err(e),
    }
}

impl Config {
    /// Applies one command-line argument to the settings.
    fn apply_argument(config: &mut Config, arg: &String) -> (step: StepKind<ConfigError>)
        ensures
            match config_argument_step(old(config)@, arg@) {
                ArgStep::Continue(c2) => step == StepKind::<ConfigError>::Continue && final(config)@ == c2,
                ArgStep::Stop(c2) => step == StepKind::<ConfigError>::Stop && final(config)@ == c2,
                ArgStep::Fail(e) => step == StepKind::Fail(e),
            },
    {
        let chars = chars_of(arg.as_str());
        match argument_parts(&chars) {
            Some((k, m)) => {
                let value = string_from_range(&chars, k + 1, m);
                if chars_range_eq(&chars, 0, k, "-t1") {
                    config.database_1_config.table_name = value;
                    StepKind::Continue
                } else if chars_range_eq(&chars, 0, k, "-t2") {
                    config.database_2_config.table_name = value;
                    StepKind::Continue
                } else if chars_range_eq(&chars, 0, k, "-q1") {
                    config.database_1_config.query = value;
                    StepKind::Continue
                } else if chars_range_eq(&chars, 0, k, "-q2") {
                    config.database_2_config.query = value;
                    StepKind::Continue
                } else if chars_range_eq(&chars, 0, k, "-output") {
                    config.comparison_options.output_file_name = value;
                    StepKind::Continue
                } else if chars_range_eq(&chars, 0, k, "-config") {
                    config.globals.config_file_path = value;
                    StepKind::Continue
                } else if chars_range_eq(&chars, 0, k, "-gen") {
                    match parse_i32(value.as_str()) {
                        Some(n) => {
                            config.data_generation.generate_data = true;
                            config.data_generation.number_of_rows_to_generate = n;
                            StepKind::Continue
                        },
                        None => StepKind::Fail(ConfigError::InvalidRowCount),
                    }
                } else {
                    StepKind::Continue
                }
            },
            None => {
                let a = arg.as_str();
                if str_eq(a, "-h") || str_eq(a, "-help") {
                    config.log_config.help = true;
                    StepKind::Stop
                } else if str_eq(a, "-tui") {
                    config.globals.tui = true;
                    StepKind::Stop
                } else if str_eq(a, "-gen") {
                    config.data_generation.generate_data = true;
                    StepKind::Stop
                } else if str_eq(a, "-verbose") {
                    config.log_config.verbose = true;
                    StepKind::Continue
                } else if str_eq(a, "-version") {
                    config.globals.version = true;
                    StepKind::Stop
                } else if str_eq(a, "-c") {
                    config.comparison_options.clean = true;
                    StepKind::Continue
                } else if str_eq(a, "-in-memory") {
                    config.comparison_options.in_memory_sqlite = true;
                    StepKind::Continue
                } else if str_eq(a, "-create-in-flight") {
                    config.comparison_options.create_sqlite_comparison_files = true;
                    StepKind::Continue
                } else if str_eq(a, "-auto-yes") {
                    config.log_config.auto_yes = true;
                    StepKind::Continue
                } else {
                    StepKind::Continue
                }
            },
        }
    }

    /// Applies every argument in turn, stopping at a flag that ends the
    /// parsing or at a rejected argument.
    fn apply_arguments(config: &mut Config, args: &Vec<String>) -> (step: StepKind<ConfigError>)
        ensures
            match config_arguments_outcome(old(config)@, strings_view(args@)) {
                ArgsOutcome::Finished(c2) => step == StepKind::<ConfigError>::Continue && final(config)@ == c2,
                ArgsOutcome::Stopped(c2) => step == StepKind::<ConfigError>::Stop && final(config)@ == c2,
                ArgsOutcome::Failed(e) => step == StepKind::Fail(e),
            },
    {
        let ghost all = strings_view(args@);
        let ghost start = config@;
        let mut i: usize = 0;
        assert(all.skip(0) =~= all);
        while i < args.len()
            invariant
                0 <= i <= args@.len(),
                all == strings_view(args@),
                start == old(config)@,
                config_arguments_outcome(start, all) == config_arguments_outcome(config@, all.skip(i as int)),
            decreases args@.len() - i,
        {
            let ghost rest = all.skip(i as int);
            let ghost before = config@;
            assert(rest[0] == args@[i as int]@);
            assert(rest.drop_first() =~= all.skip(i + 1));
            let step = Config::apply_argument(config, &args[i]);
            match step {
                StepKind::Continue => {},
                StepKind::Stop => {
                    assert(config_arguments_outcome(before, rest) == ArgsOutcome::<ConfigView, ConfigError>::Stopped(config@));
                    return StepKind::Stop;
                },
                StepKind::Fail(e) => {
                    assert(config_arguments_outcome(before, rest) == ArgsOutcome::<ConfigView, ConfigError>::Failed(e));
                    return StepKind::Fail(e);
                },
            }
            i = i + 1;
        }
        assert(all.skip(i as int) =~= Seq::<Seq<char>>::empty());
        StepKind::Continue
    }

    /// The settings that the command line `args` gives (the program name
    /// included, as `std::env::args` lists it), starting from the defaults
    /// stamped with `date_stamp`: the defaults when there are no arguments,
    /// otherwise the defaults with the arguments applied, up to a flag that
    /// ends the reading.
    pub fn from_arguments(args: &Vec<String>, date_stamp: &str) -> (r: Result<Config, ConfigError>)
        ensures
            config_result_view(r) == from_arguments_spec(strings_view(args@), date_stamp@),
    {
        let mut config = Config::default_at(date_stamp);
        if args.len() == 0 {
            return Ok(config);
        }
        match Config::apply_arguments(&mut config, args) {
            StepKind::Fail(e) => Err(e),
            _ => Ok(config),
        }
    }

    /// The settings `file_config` read from a configuration file, with the
    /// command line `args` applied on top of them and the result validated.
    pub fn merge_arguments(file_config: Config, args: &Vec<String>) -> (r: Result<Config, ConfigError>)
        ensures
            config_result_view(r) == merge_arguments_spec(file_config@, strings_view(args@)),
    {
        let mut config = file_config;
        match Config::apply_arguments(&mut config, args) {
            StepKind::Fail(e) => Err(e),
            _ => Config::from_config_file(config),
        }
    }
}

} // verus!

verus! {

/// Where the settings of a run come from.
pub enum ConfigSource {
    /// The command line alone.
    Arguments(Config),
    /// The configuration file at this path.
    File(String),
}

/// Model of [`ConfigSource`].
pub enum ConfigSourceView {
    Arguments(ConfigView),
    File(Seq<char>),
}

impl View for ConfigSource {
    type V = ConfigSourceView;

    open spec fn view(&self) -> ConfigSourceView {
        match self {
            ConfigSource::Arguments(c) => ConfigSourceView::Arguments(c@),
            ConfigSource::File(p) => ConfigSourceView::File(p@),
        }
    }
}

/// The command line decides: when its settings name no configuration file
/// they are used as `from_arguments` gives them; otherwise the file is read,
/// and the command line is applied on top of it (`merge_arguments`).
pub open spec fn new_spec(args: Seq<Seq<char>>, stamp: Seq<char>) -> Result<ConfigSourceView, ConfigError> {
    match from_arguments_spec(args, stamp) {
        Ok(c) => if c.globals.config_file_path.len() == 0 {
            Ok(ConfigSourceView::Arguments(c))
        } else {
            Ok(ConfigSourceView::File(c.globals.config_file_path))
        },
        Err(e) => Err(e),
    }
}

/// The model of a result that holds a settings source.
pub open spec fn source_result_view(r: Result<ConfigSource, ConfigError>) -> Result<ConfigSourceView, ConfigError> {
    match r {
        Ok(s) => Ok(s@),
        Err(e) => Err(e),
    }
}

/// Settings read from a file are kept only when validation has nothing to
/// say against them.
pub open spec fn from_config_file_spec(parsed: ConfigView) -> Result<ConfigView, ConfigError> {
    if config_errors(parsed).len() != 0 {
        Err(ConfigError::InvalidConfiguration)
    } else {
        Ok(parsed)
    }
}

/// The lines of the help message.
pub open spec fn help_lines() -> Seq<Seq<char>> {
    seq![
        "Help requested! This is a tool to help compare large data sets between mysql and sqlite"@,
        "Usage: data_comparison"@,
        "\t-h : print this help message"@,
        "\t-help : print this help message"@,
        "\t-tui : run with terminal ui"@,
        "\t-q1=<query> : specify a first mysql query to run"@,
        "\t-q2=<query> : specify a second mysql query to run"@,
        "\t-gen : generate new data in mysql"@,
        "\t-verbose : verbose output"@,
        "\t-version : print version information"@,
        "\t-c : clean sqlite database"@,
        "\t-t1=<table_name> : specify the name of the first table to compare"@,
        "\t-t2=<table_name> : specify the name of the second table to compare"@,
        "\t-in-memory : use an in memory sqlite database instead of file based"@,
        "\t-create-in-flight : create sqlite comparison files while in flight"@,
        "\t-auto-yes : automatically answer yes to all prompts"@,
        "\t-output=<output_file> : specify the name of the output csv file"@,
    ]
}

/// The lines that describe a configuration.
pub open spec fn config_lines(c: ConfigView) -> Seq<Seq<char>> {
    seq![
        "Configuration:"@,
        "database 1 db_name: "@ + c.database_1_config.db_name,
        "database 1 host: "@ + c.database_1_config.db_host,
        "database 2 db_name: "@ + c.database_2_config.db_name,
        "database 2 host: "@ + c.database_2_config.db_host,
        "table 1: "@ + c.database_1_config.table_name,
        "table 2: "@ + c.database_2_config.table_name,
        "output file name: "@ + c.comparison_options.output_file_name,
        "create sqlite comparison files: "@ + bool_text(c.comparison_options.create_sqlite_comparison_files),
        "in memory sqlite: "@ + bool_text(c.comparison_options.in_memory_sqlite),
        "clean: "@ + bool_text(c.comparison_options.clean),
        "data generation: "@ + bool_text(c.data_generation.generate_data),
        "number of rows to generate: "@ + int_text(c.data_generation.number_of_rows_to_generate as int),
    ]
}

fn push_labelled(lines: &mut Vec<String>, label: &str, value: &String)
    ensures
        strings_view(final(lines)@) == strings_view(old(lines)@).push(label@ + value@),
{
    push_string(lines, concat_str(label, value.as_str()));
}

fn push_labelled_bool(lines: &mut Vec<String>, label: &str, value: bool)
    ensures
        strings_view(final(lines)@) == strings_view(old(lines)@).push(label@ + bool_text(value)),
{
    let mut s = String::from_str(label);
    push_bool(&mut s, value);
    push_string(lines, s);
}

impl Config {
    /// Where the settings of this run come from, given the command line
    /// `args` (the program name included). The defaults that the command
    /// line starts from carry the current local time in the output file name.
    pub fn new(args: &Vec<String>) -> (r: Result<ConfigSource, ConfigError>)
        ensures
            exists|stamp: Seq<char>| source_result_view(r) == new_spec(strings_view(args@), stamp),
    {
        let stamp = crate::clock::date_stamp();
        let r = match Config::from_arguments(args, stamp.as_str()) {
            Ok(config) => if config.globals.config_file_path.as_str().is_empty() {
                Ok(ConfigSource::Arguments(config))
            } else {
                Ok(ConfigSource::File(config.globals.config_file_path))
            },
            Err(e) => Err(e),
        };
        assert(source_result_view(r) == new_spec(strings_view(args@), stamp@));
        r
    }

    /// Accepts the settings read from a configuration file when validation
    /// finds nothing missing in them.
    pub fn from_config_file(parsed: Config) -> (r: Result<Config, ConfigError>)
        ensures
            config_result_view(r) == from_config_file_spec(parsed@),
    {
        let errors = Config::validate_config(&parsed);
        if errors.len() != 0 {
            Err(ConfigError::InvalidConfiguration)
        } else {
            Ok(parsed)
        }
    }

    /// Accepts the settings `parsed` from the configuration file at
    /// `config_path`. An empty path is refused first (`EmptyConfigPath`),
    /// then settings that validation finds incomplete
    /// (`InvalidConfiguration`). These two errors are where the program
    /// stops: its caller panics on them with "cannot create new config,
    /// config_path string is empty" and "Invalid configuration detected".
    pub fn new_from_file(config_path: &str, parsed: Config) -> (r: Result<Config, ConfigError>)
        ensures
            config_path@.len() == 0 ==> r == Err::<Config, ConfigError>(ConfigError::EmptyConfigPath),
            config_path@.len() != 0 ==> config_result_view(r) == from_config_file_spec(parsed@),
    {
        if config_path.is_empty() {
            return Err(ConfigError::EmptyConfigPath);
        }
        Config::from_config_file(parsed)
    }

    /// The lines of the help message, in the order they are logged.
    pub fn print_help(&self) -> (lines: Vec<String>)
        ensures
            strings_view(lines@) == help_lines(),
    {
        let mut lines: Vec<String> = Vec::new();
        push_str_copy(&mut lines, "Help requested! This is a tool to help compare large data sets between mysql and sqlite");
        push_str_copy(&mut lines, "Usage: data_comparison");
        push_str_copy(&mut lines, "\t-h : print this help message");
        push_str_copy(&mut lines, "\t-help : print this help message");
        push_str_copy(&mut lines, "\t-tui : run with terminal ui");
        push_str_copy(&mut lines, "\t-q1=<query> : specify a first mysql query to run");
        push_str_copy(&mut lines, "\t-q2=<query> : specify a second mysql query to run");
        push_str_copy(&mut lines, "\t-gen : generate new data in mysql");
        push_str_copy(&mut lines, "\t-verbose : verbose output");
        push_str_copy(&mut lines, "\t-version : print version information");
        push_str_copy(&mut lines, "\t-c : clean sqlite database");
        push_str_copy(&mut lines, "\t-t1=<table_name> : specify the name of the first table to compare");
        push_str_copy(&mut lines, "\t-t2=<table_name> : specify the name of the second table to compare");
        push_str_copy(&mut lines, "\t-in-memory : use an in memory sqlite database instead of file based");
        push_str_copy(&mut lines, "\t-create-in-flight : create sqlite comparison files while in flight");
        push_str_copy(&mut lines, "\t-auto-yes : automatically answer yes to all prompts");
        push_str_copy(&mut lines, "\t-output=<output_file> : specify the name of the output csv file");
        assert(strings_view(lines@) =~= help_lines());
        lines
    }

    /// The lines that describe these settings, in the order they are logged.
    pub fn print_config(&self) -> (lines: Vec<String>)
        ensures
            strings_view(lines@) == config_lines(self@),
    {
        let mut lines: Vec<String> = Vec::new();
        push_str_copy(&mut lines, "Configuration:");
        push_labelled(&mut lines, "database 1 db_name: ", &self.database_1_config.db_name);
        push_labelled(&mut lines, "database 1 host: ", &self.database_1_config.db_host);
        push_labelled(&mut lines, "database 2 db_name: ", &self.database_2_config.db_name);
        push_labelled(&mut lines, "database 2 host: ", &self.database_2_config.db_host);
        push_labelled(&mut lines, "table 1: ", &self.database_1_config.table_name);
        push_labelled(&mut lines, "table 2: ", &self.database_2_config.table_name);
        push_labelled(&mut lines, "output file name: ", &self.comparison_options.output_file_name);
        push_labelled_bool(&mut lines, "create sqlite comparison files: ", self.comparison_options.create_sqlite_comparison_files);
        push_labelled_bool(&mut lines, "in memory sqlite: ", self.comparison_options.in_memory_sqlite);
        push_labelled_bool(&mut lines, "clean: ", self.comparison_options.clean);
        push_labelled_bool(&mut lines, "data generation: ", self.data_generation.generate_data);
        let mut rows = String::from_str("number of rows to generate: ");
        push_int(&mut rows, self.data_generation.number_of_rows_to_generate as i64);
        push_string(&mut lines, rows);
        assert(strings_view(lines@) =~= config_lines(self@));
        lines
    }
}

} // verus!

verus! {

/// Whether every connection setting that validation checks is filled in.
pub open spec fn db_config_complete(d: DatabaseConfigView) -> bool {
    &&& d.db_name.len() > 0
    &&& d.db_user.len() > 0
    &&& d.db_password.len() > 0
    &&& d.db_host.len() > 0
    &&& d.table_name.len() > 0
}

/// Validation finds nothing to complain about exactly when the database
/// name, user, password, host and table name of both tables are all set;
/// so a configuration file is accepted exactly then.
pub proof fn lemma_config_valid_iff_complete(c: ConfigView)
    ensures
        (config_errors(c).len() == 0) <==> (db_config_complete(c.database_1_config) && db_config_complete(
            c.database_2_config,
        )),
        from_config_file_spec(c) is Ok <==> (db_config_complete(c.database_1_config) && db_config_complete(
            c.database_2_config,
        )),
{
}

/// An argument that is neither a known flag nor a known `flag=value` leaves
/// the settings as they are.
pub proof fn lemma_unknown_argument_ignored(c: ConfigView, arg: Seq<char>)
    requires
        has_char(arg, '=') ==> {
            let key = arg_key(arg);
            &&& key != "-t1"@ && key != "-t2"@ && key != "-q1"@ && key != "-q2"@
            &&& key != "-output"@ && key != "-config"@ && key != "-gen"@
        },
        !has_char(arg, '=') ==> {
            &&& arg != "-h"@ && arg != "-help"@ && arg != "-tui"@ && arg != "-gen"@
            &&& arg != "-verbose"@ && arg != "-version"@ && arg != "-c"@ && arg != "-in-memory"@
            &&& arg != "-create-in-flight"@ && arg != "-auto-yes"@
        },
    ensures
        config_argument_step(c, arg) == ArgStep::<ConfigView, ConfigError>::Continue(c),
{
}

/// `-t1=<name>` names the first table and changes nothing else.
pub proof fn lemma_t1_sets_first_table(c: ConfigView, name: Seq<char>)
    requires
        !has_char(name, '='),
    ensures
        config_argument_step(c, "-t1="@ + name) == ArgStep::<ConfigView, ConfigError>::Continue(
            ConfigView { database_1_config: with_table_name(c.database_1_config, name), ..c },
        ),
{
    reveal_strlit("-t1=");
    reveal_strlit("-t1");
    let arg = "-t1="@ + name;
    assert(arg[3] == '=');
    crate::text::lemma_char_index(arg, '=', 3);
    assert(arg_key(arg) =~= "-t1"@);
    let rest = arg.skip(4);
    assert(rest =~= name);
    crate::text::lemma_char_index_bound(name, '=');
    assert(name.take(name.len() as int) =~= name);
    assert(arg_value(arg) =~= name);
}

} // verus!

verus! {

/// The flags that end the reading of the command line.
pub open spec fn is_stop_flag(arg: Seq<char>) -> bool {
    arg == "-h"@ || arg == "-help"@ || arg == "-tui"@ || arg == "-gen"@ || arg == "-version"@
}

proof fn lemma_no_equals(s: Seq<char>)
    requires
        forall|j: int| 0 <= j < s.len() ==> s[j] != '=',
    ensures
        !has_char(s, '='),
{
    crate::text::lemma_char_index(s, '=', s.len() as int);
}

/// A flag that ends the reading sets its own option and stops: `-h` and
/// `-help` ask for help, `-tui` for the terminal interface, `-gen` for data
/// generation and `-version` for the version.
pub proof fn lemma_stop_flag_step(c: ConfigView, arg: Seq<char>)
    requires
        is_stop_flag(arg),
    ensures
        arg == "-h"@ || arg == "-help"@ ==> config_argument_step(c, arg) == ArgStep::<ConfigView, ConfigError>::Stop(
            ConfigView { log_config: LogConfigView { help: true, ..c.log_config }, ..c },
        ),
        arg == "-tui"@ ==> config_argument_step(c, arg) == ArgStep::<ConfigView, ConfigError>::Stop(
            ConfigView { globals: GlobalsView { tui: true, ..c.globals }, ..c },
        ),
        arg == "-gen"@ ==> config_argument_step(c, arg) == ArgStep::<ConfigView, ConfigError>::Stop(
            ConfigView { data_generation: DataGeneration { generate_data: true, ..c.data_generation }, ..c },
        ),
        arg == "-version"@ ==> config_argument_step(c, arg) == ArgStep::<ConfigView, ConfigError>::Stop(
            ConfigView { globals: GlobalsView { version: true, ..c.globals }, ..c },
        ),
{
    reveal_strlit("-h");
    reveal_strlit("-help");
    reveal_strlit("-tui");
    reveal_strlit("-gen");
    reveal_strlit("-version");
    reveal_strlit("-verbose");
    assert("-gen"@[1] != "-tui"@[1]);
    assert("-version"@[5] != "-verbose"@[5]);
    lemma_no_equals(arg);
}

/// Once a flag that ends the reading stands on the command line, whatever
/// follows it changes nothing: the outcome is that of the arguments up to and
/// including the flag.
pub proof fn lemma_arguments_after_stop_flag_ignored(c: ConfigView, args: Seq<Seq<char>>, k: int)
    requires
        0 <= k < args.len(),
        is_stop_flag(args[k]),
    ensures
        config_arguments_outcome(c, args) == config_arguments_outcome(c, args.take(k + 1)),
    decreases k,
{
    let short = args.take(k + 1);
    assert(short[0] == args[0]);
    if k == 0 {
        lemma_stop_flag_step(c, args[0]);
    } else {
        assert(short.drop_first() =~= args.drop_first().take(k));
        match config_argument_step(c, args[0]) {
            ArgStep::Continue(c2) => {
                lemma_arguments_after_stop_flag_ignored(c2, args.drop_first(), k - 1);
            },
            _ => {},
        }
    }
}

/// The same for the settings the command line gives: arguments after a flag
/// that ends the reading are ignored.
pub proof fn lemma_from_arguments_ignores_after_stop_flag(args: Seq<Seq<char>>, stamp: Seq<char>, k: int)
    requires
        0 <= k < args.len(),
        is_stop_flag(args[k]),
    ensures
        from_arguments_spec(args, stamp) == from_arguments_spec(args.take(k + 1), stamp),
{
    lemma_arguments_after_stop_flag_ignored(default_view(stamp), args, k);
}

} // verus!

verus! {

/// A value given on the command line wins over the configuration file: with
/// `-t1=<name>`, the merged settings are the file's with the first table
/// renamed, accepted when they validate.
pub proof fn lemma_merge_t1_overrides_file(file: ConfigView, name: Seq<char>)
    requires
        !has_char(name, '='),
    ensures
        merge_arguments_spec(file, seq!["-t1="@ + name]) == from_config_file_spec(
            ConfigView { database_1_config: with_table_name(file.database_1_config, name), ..file },
        ),
{
    let args = seq!["-t1="@ + name];
    let c2 = ConfigView { database_1_config: with_table_name(file.database_1_config, name), ..file };
    lemma_t1_sets_first_table(file, name);
    assert(args[0] == "-t1="@ + name);
    assert(args.drop_first() =~= Seq::<Seq<char>>::empty());
    assert(config_arguments_outcome(c2, args.drop_first()) == ArgsOutcome::<ConfigView, ConfigError>::Finished(c2));
}

} // verus!

verus! {

proof fn lemma_outcome_fails_only_on_row_count(c: ConfigView, args: Seq<Seq<char>>)
    ensures
        config_arguments_outcome(c, args) is Failed ==> config_arguments_outcome(c, args)
            == ArgsOutcome::<ConfigView, ConfigError>::Failed(ConfigError::InvalidRowCount),
    decreases args.len(),
{
    if args.len() > 0 {
        match config_argument_step(c, args[0]) {
            ArgStep::Continue(c2) => lemma_outcome_fails_only_on_row_count(c2, args.drop_first()),
            _ => {},
        }
    }
}

/// The command line is refused only for a `-gen=<n>` whose value is not a
/// number; every other command line gives settings, whatever they lack.
pub proof fn lemma_from_arguments_refused_only_for_row_count(args: Seq<Seq<char>>, stamp: Seq<char>)
    ensures
        from_arguments_spec(args, stamp) is Err ==> from_arguments_spec(args, stamp) == Err::<ConfigView, ConfigError>(
            ConfigError::InvalidRowCount,
        ),
{
    lemma_outcome_fails_only_on_row_count(default_view(stamp), args);
}

} // verus!

verus! {

/// The `flag=value` arguments each set their own setting to the value and
/// change nothing else: `-t1` and `-t2` the table names, `-q1` and `-q2` the
/// queries, `-output` the output file name, `-config` the configuration file.
pub proof fn lemma_value_flags_set_their_setting(c: ConfigView, v: Seq<char>)
    requires
        !has_char(v, '='),
    ensures
        config_argument_step(c, "-t1="@ + v) == ArgStep::<ConfigView, ConfigError>::Continue(
            ConfigView { database_1_config: DatabaseConfigView { table_name: v, ..c.database_1_config }, ..c },
        ),
        config_argument_step(c, "-t2="@ + v) == ArgStep::<ConfigView, ConfigError>::Continue(
            ConfigView { database_2_config: DatabaseConfigView { table_name: v, ..c.database_2_config }, ..c },
        ),
        config_argument_step(c, "-q1="@ + v) == ArgStep::<ConfigView, ConfigError>::Continue(
            ConfigView { database_1_config: DatabaseConfigView { query: v, ..c.database_1_config }, ..c },
        ),
        config_argument_step(c, "-q2="@ + v) == ArgStep::<ConfigView, ConfigError>::Continue(
            ConfigView { database_2_config: DatabaseConfigView { query: v, ..c.database_2_config }, ..c },
        ),
        config_argument_step(c, "-output="@ + v) == ArgStep::<ConfigView, ConfigError>::Continue(
            ConfigView {
                comparison_options: ComparisonOptionsView { output_file_name: v, ..c.comparison_options },
                ..c
            },
        ),
        config_argument_step(c, "-config="@ + v) == ArgStep::<ConfigView, ConfigError>::Continue(
            ConfigView { globals: GlobalsView { config_file_path: v, ..c.globals }, ..c },
        ),
{
    reveal_strlit("-t1");
    reveal_strlit("-t2");
    reveal_strlit("-q1");
    reveal_strlit("-q2");
    reveal_strlit("-output");
    reveal_strlit("-config");
    reveal_strlit("-t1=");
    reveal_strlit("-t2=");
    reveal_strlit("-q1=");
    reveal_strlit("-q2=");
    reveal_strlit("-output=");
    reveal_strlit("-config=");
    reveal_strlit("=");
    assert("-t1="@ =~= "-t1"@ + "="@);
    assert("-t2="@ =~= "-t2"@ + "="@);
    assert("-q1="@ =~= "-q1"@ + "="@);
    assert("-q2="@ =~= "-q2"@ + "="@);
    assert("-output="@ =~= "-output"@ + "="@);
    assert("-config="@ =~= "-config"@ + "="@);
    crate::text::lemma_key_value_split("-t1"@, v);
    crate::text::lemma_key_value_split("-t2"@, v);
    crate::text::lemma_key_value_split("-q1"@, v);
    crate::text::lemma_key_value_split("-q2"@, v);
    crate::text::lemma_key_value_split("-output"@, v);
    crate::text::lemma_key_value_split("-config"@, v);
    assert("-t1"@[2] != "-t2"@[2]);
    assert("-t1"@[1] != "-q1"@[1]);
    assert("-t2"@[1] != "-q1"@[1]);
    assert("-t1"@[1] != "-q2"@[1]);
    assert("-t2"@[1] != "-q2"@[1]);
    assert("-q1"@[2] != "-q2"@[2]);
    assert("-config"@[1] != "-output"@[1]);
}

/// `-gen=<n>` asks for data generation of `n` rows when `n` is a number and
/// is refused otherwise.
pub proof fn lemma_gen_value_sets_row_count(c: ConfigView, v: Seq<char>)
    requires
        !has_char(v, '='),
    ensures
        parse_i32_spec(v) matches Some(n) ==> config_argument_step(c, "-gen="@ + v)
            == ArgStep::<ConfigView, ConfigError>::Continue(
            ConfigView {
                data_generation: DataGeneration {
                    generate_data: true,
                    number_of_rows_to_generate: n,
                    ..c.data_generation
                },
                ..c
            },
        ),
        parse_i32_spec(v) is None ==> config_argument_step(c, "-gen="@ + v) == ArgStep::<ConfigView, ConfigError>::Fail(
            ConfigError::InvalidRowCount,
        ),
{
    reveal_strlit("-gen");
    reveal_strlit("-gen=");
    reveal_strlit("=");
    reveal_strlit("-t1");
    reveal_strlit("-t2");
    reveal_strlit("-q1");
    reveal_strlit("-q2");
    reveal_strlit("-output");
    reveal_strlit("-config");
    assert("-gen="@ =~= "-gen"@ + "="@);
    crate::text::lemma_key_value_split("-gen"@, v);
    assert("-gen"@[1] != "-t1"@[1]);
    assert("-gen"@[1] != "-q1"@[1]);
}

/// The flags that switch an option on each set it to `true`, whatever it
/// was, change nothing else, and let the reading go on: `-verbose`, `-c`
/// (clean), `-in-memory`, `-create-in-flight` and `-auto-yes`.
pub proof fn lemma_switch_flags_turn_their_option_on(c: ConfigView)
    ensures
        config_argument_step(c, "-verbose"@) == ArgStep::<ConfigView, ConfigError>::Continue(
            ConfigView { log_config: LogConfigView { verbose: true, ..c.log_config }, ..c },
        ),
        config_argument_step(c, "-c"@) == ArgStep::<ConfigView, ConfigError>::Continue(
            ConfigView { comparison_options: ComparisonOptionsView { clean: true, ..c.comparison_options }, ..c },
        ),
        config_argument_step(c, "-in-memory"@) == ArgStep::<ConfigView, ConfigError>::Continue(
            ConfigView {
                comparison_options: ComparisonOptionsView { in_memory_sqlite: true, ..c.comparison_options },
                ..c
            },
        ),
        config_argument_step(c, "-create-in-flight"@) == ArgStep::<ConfigView, ConfigError>::Continue(
            ConfigView {
                comparison_options: ComparisonOptionsView {
                    create_sqlite_comparison_files: true,
                    ..c.comparison_options
                },
                ..c
            },
        ),
        config_argument_step(c, "-auto-yes"@) == ArgStep::<ConfigView, ConfigError>::Continue(
            ConfigView { log_config: LogConfigView { auto_yes: true, ..c.log_config }, ..c },
        ),
{
    reveal_strlit("-h");
    reveal_strlit("-help");
    reveal_strlit("-tui");
    reveal_strlit("-gen");
    reveal_strlit("-version");
    reveal_strlit("-verbose");
    reveal_strlit("-c");
    reveal_strlit("-in-memory");
    reveal_strlit("-create-in-flight");
    reveal_strlit("-auto-yes");
    crate::text::lemma_no_equals_sign("-verbose"@);
    crate::text::lemma_no_equals_sign("-c"@);
    crate::text::lemma_no_equals_sign("-in-memory"@);
    crate::text::lemma_no_equals_sign("-create-in-flight"@);
    crate::text::lemma_no_equals_sign("-auto-yes"@);
    assert("-verbose"@[5] != "-version"@[5]);
    assert("-c"@[1] != "-h"@[1]);
    assert("-in-memory"@[1] != "-create-in-flight"@[1]);
}

} // verus!
