//! Leveled, categorized logging.
//!
//! A logger holds a severity threshold, a message pattern, and a list of
//! disabled categories. Logging is split from emission: `log` decides
//! whether a message passes the logger's filter and, if so, produces the
//! formatted line; writing that line to a console or a file is the
//! embedding program's concern.

use vstd::prelude::*;
use vstd::string::StringExecFns;
use crate::config::JsonValue;

verus! {

/// Message severity. The declaration order is the severity order used by
/// the threshold filter, `Trace` counting as the highest.
#[derive(Debug, Clone, Copy, PartialEq, Eq, Structural)]
pub enum Level {
    Debug,
    Info,
    Warn,
    Error,
    Fatal,
    Trace,
}

/// The level a numeric configuration value denotes; values beyond the
/// known ones denote `Trace`.
pub open spec fn spec_level_from_u32(level: u32) -> Level {
    if level == 0 {
        Level::Debug
    } else if level == 1 {
        Level::Info
    } else if level == 2 {
        Level::Warn
    } else if level == 3 {
        Level::Error
    } else if level == 4 {
        Level::Fatal
    } else {
        Level::Trace
    }
}

/// A level's position in the severity order.
pub open spec fn level_rank(level: Level) -> u32 {
    match level {
        Level::Debug => 0,
        Level::Info => 1,
        Level::Warn => 2,
        Level::Error => 3,
        Level::Fatal => 4,
        Level::Trace => 5,
    }
}

/// The name a level is formatted as.
pub open spec fn level_label(level: Level) -> Seq<char> {
    match level {
        Level::Debug => "Debug"@,
        Level::Info => "Info"@,
        Level::Warn => "Warn"@,
        Level::Error => "Error"@,
        Level::Fatal => "Fatal"@,
        Level::Trace => "Trace"@,
    }
}

impl Level {
    /// Decodes a numeric configuration value into a level.
    pub fn from_u32(level: u32) -> (r: Level)
        ensures
            r == spec_level_from_u32(level),
    {
        match level {
            0u32 => Level::Debug,
            1u32 => Level::Info,
            2u32 => Level::Warn,
            3u32 => Level::Error,
            4u32 => Level::Fatal,
            _ => Level::Trace,
        }
    }

    /// This level's position in the severity order.
    pub fn rank(&self) -> (r: u32)
        ensures
            r == level_rank(*self),
    {
        match self {
            Level::Debug => 0u32,
            Level::Info => 1u32,
            Level::Warn => 2u32,
            Level::Error => 3u32,
            Level::Fatal => 4u32,
            Level::Trace => 5u32,
        }
    }

    /// The name this level is formatted as.
    pub fn label(&self) -> (r: String)
        ensures
            r@ == level_label(*self),
    {
        match self {
            Level::Debug => String::from_str("Debug"),
            Level::Info => String::from_str("Info"),
            Level::Warn => String::from_str("Warn"),
            Level::Error => String::from_str("Error"),
            Level::Fatal => String::from_str("Fatal"),
            Level::Trace => String::from_str("Trace"),
        }
    }
}

/// Whether some string of the list reads as `s`.
pub open spec fn seq_contains_str(list: Seq<String>, s: Seq<char>) -> bool {
    exists|i: int| 0 <= i < list.len() && list[i]@ == s
}

/// Whether some string of the list reads as `s`.
fn contains_str(list: &Vec<String>, s: &str) -> (r: bool)
    ensures
        r == seq_contains_str(list@, s@),
{
    let needle = String::from_str(s);
    let mut i: usize = 0;
    while i < list.len()
        invariant
            0 <= i <= list@.len(),
            needle@ == s@,
            forall|j: int| 0 <= j < i ==> (#[trigger] list@[j])@ != s@,
        decreases list@.len() - i,
    {
        if list[i] == needle {
            return true;
        }
        i += 1;
    }
    false
}

/// `s` with every non-overlapping occurrence of `from`, leftmost first,
/// replaced by `to`.
pub open spec fn replace_seq(s: Seq<char>, from: Seq<char>, to: Seq<char>) -> Seq<char>
    decreases s.len(),
{
    if from.len() == 0 {
        s
    } else if s.len() < from.len() {
        s
    } else if s.subrange(0, from.len() as int) == from {
        to + replace_seq(s.subrange(from.len() as int, s.len() as int), from, to)
    } else {
        seq![s[0]] + replace_seq(s.subrange(1, s.len() as int), from, to)
    }
}

/// Relies on `str::replace`: replaces every non-overlapping occurrence of
/// the pattern, leftmost first, with the replacement.
#[verifier::external_body]
fn replace_all(s: &str, from: &str, to: &str) -> (r: String)
    requires
        from@.len() > 0,
    ensures
        r@ == replace_seq(s@, from@, to@),
{
    s.replace(from, to)
}

/// The fixed date stamp the pattern's date placeholder expands to.
pub open spec fn stamp_date() -> Seq<char> {
    "2024-12-30"@
}

/// The fixed time stamp the pattern's time placeholder expands to.
pub open spec fn stamp_time() -> Seq<char> {
    "12:00:00"@
}

/// The pattern every logger starts with.
pub open spec fn default_pattern() -> Seq<char> {
    "%D %T %L [%C]: %M"@
}

/// A pattern with its placeholders expanded: date, time, level label,
/// category, and message, in that order.
pub open spec fn format_line(
    pattern: Seq<char>,
    category: Seq<char>,
    level: Level,
    message: Seq<char>,
) -> Seq<char> {
    replace_seq(
        replace_seq(
            replace_seq(
                replace_seq(replace_seq(pattern, "%D"@, stamp_date()), "%T"@, stamp_time()),
                "%L"@,
                level_label(level),
            ),
            "%C"@,
            category,
        ),
        "%M"@,
        message,
    )
}

/// Expands the placeholders of a pattern.
fn apply_pattern_text(pattern: &str, category: &str, level: Level, message: &str) -> (r: String)
    ensures
        r@ == format_line(pattern@, category@, level, message@),
{
    proof {
        reveal_strlit("%D");
        reveal_strlit("%T");
        reveal_strlit("%L");
        reveal_strlit("%C");
        reveal_strlit("%M");
    }
    let label = level.label();
    let with_date = replace_all(pattern, "%D", "2024-12-30");
    let with_time = replace_all(with_date.as_str(), "%T", "12:00:00");
    let with_level = replace_all(with_time.as_str(), "%L", label.as_str());
    let with_category = replace_all(with_level.as_str(), "%C", category);
    replace_all(with_category.as_str(), "%M", message)
}

/// The logging capability: filter a message by category and severity and
/// format the accepted ones.
pub trait Logger {
    /// Whether this logger accepts messages of the category and level.
    spec fn spec_enabled(&self, category: Seq<char>, level: Level) -> bool;

    /// The line this logger formats for an accepted message.
    spec fn spec_format(&self, category: Seq<char>, level: Level, message: Seq<char>) -> Seq<char>;

    /// The formatted line for the message when the filter accepts it;
    /// nothing when it is filtered out.
    fn log(&self, category: &str, level: Level, message: &str) -> (r: Option<String>)
        ensures
            match r {
                Some(line) => self.spec_enabled(category@, level) && line@ == self.spec_format(
                    category@,
                    level,
                    message@,
                ),
                None => !self.spec_enabled(category@, level),
            },
    ;

    /// Replaces the message pattern.
    fn set_pattern(&mut self, pattern: &str);

    /// Disables a category: its messages are filtered out from now on,
    /// and no other category is affected.
    fn disable_category(&mut self, category: &str)
        ensures
            forall|lvl: Level| !final(self).spec_enabled(category@, lvl),
            forall|c: Seq<char>, lvl: Level|
                c != category@ ==> #[trigger] final(self).spec_enabled(c, lvl) == old(
                    self,
                ).spec_enabled(c, lvl),
            forall|c: Seq<char>, lvl: Level, m: Seq<char>|
                #[trigger] final(self).spec_format(c, lvl, m) == old(self).spec_format(c, lvl, m),
    ;
}

/// A logger whose lines are meant for the console.
pub struct ConsoleLogger {
    /// The severity threshold: only this level and above pass.
    pub level: Level,
    /// The message pattern.
    pub pattern: String,
    /// The categories filtered out.
    pub disabled_categories: Vec<String>,
}

impl ConsoleLogger {
    /// A console logger with the default pattern, no disabled categories,
    /// and the given threshold.
    pub fn new(level: Level) -> (r: Self)
        ensures
            r.level == level,
            r.pattern@ == default_pattern(),
            r.disabled_categories@ =~= Seq::<String>::empty(),
    {
        ConsoleLogger {
            level,
            pattern: String::from_str("%D %T %L [%C]: %M"),
            disabled_categories: Vec::new(),
        }
    }

    /// Expands this logger's pattern for a message.
    fn apply_pattern(&self, category: &str, level: Level, message: &str) -> (r: String)
        ensures
            r@ == format_line(self.pattern@, category@, level, message@),
    {
        apply_pattern_text(self.pattern.as_str(), category, level, message)
    }
}

impl Logger for ConsoleLogger {
    /// Accepts a message whose category is not disabled and whose level
    /// reaches the threshold.
    open spec fn spec_enabled(&self, category: Seq<char>, level: Level) -> bool {
        !seq_contains_str(self.disabled_categories@, category) && level_rank(level) >= level_rank(
            self.level,
        )
    }

    open spec fn spec_format(
        &self,
        category: Seq<char>,
        level: Level,
        message: Seq<char>,
    ) -> Seq<char> {
        format_line(self.pattern@, category, level, message)
    }

    fn log(&self, category: &str, level: Level, message: &str) -> (r: Option<String>) {
        if !contains_str(&self.disabled_categories, category) && level.rank() >= self.level.rank() {
            Some(self.apply_pattern(category, level, message))
        } else {
            None
        }
    }

    fn set_pattern(&mut self, pattern: &str)
        ensures
            final(self).pattern@ == pattern@,
            final(self).level == old(self).level,
            final(self).disabled_categories == old(self).disabled_categories,
    {
        self.pattern = String::from_str(pattern);
    }

    fn disable_category(&mut self, category: &str)
        ensures
            final(self).pattern == old(self).pattern,
            final(self).level == old(self).level,
            final(self).disabled_categories@ == old(self).disabled_categories@.push(
                final(self).disabled_categories@.last(),
            ),
            final(self).disabled_categories@.last()@ == category@,
    {
        self.disabled_categories.push(String::from_str(category));
        proof {
            assert forall|c: Seq<char>, lvl: Level|
                c != category@ implies #[trigger] self.spec_enabled(c, lvl) == old(
                self,
            ).spec_enabled(c, lvl) by {
                let ds = old(self).disabled_categories@;
                assert(seq_contains_str(self.disabled_categories@, c) == seq_contains_str(ds, c))
                    by {
                    if seq_contains_str(ds, c) {
                        let i = choose|i: int| 0 <= i < ds.len() && ds[i]@ == c;
                        assert(self.disabled_categories@[i]@ == c);
                    }
                    if seq_contains_str(self.disabled_categories@, c) {
                        let i = choose|i: int|
                            0 <= i < self.disabled_categories@.len()
                                && self.disabled_categories@[i]@ == c;
                        assert(i < ds.len());
                        assert(ds[i]@ == c);
                    }
                }
            }
            assert forall|lvl: Level| !self.spec_enabled(category@, lvl) by {
                assert(self.disabled_categories@.last()@ == category@);
            }
        }
    }
}

/// A logger whose lines are meant for a file; it carries the file's name,
/// and the embedding program performs the writing.
pub struct FileLogger {
    /// The severity threshold: only this level and above pass.
    pub level: Level,
    /// The message pattern.
    pub pattern: String,
    /// The categories filtered out.
    pub disabled_categories: Vec<String>,
    /// The name of the file the lines are meant for.
    pub file_name: String,
}

impl FileLogger {
    /// A file logger with the default pattern, no disabled categories,
    /// the given threshold, and the given file name.
    pub fn new(level: Level, file_name: &str) -> (r: Self)
        ensures
            r.level == level,
            r.pattern@ == default_pattern(),
            r.disabled_categories@ =~= Seq::<String>::empty(),
            r.file_name@ == file_name@,
    {
        FileLogger {
            level,
            pattern: String::from_str("%D %T %L [%C]: %M"),
            disabled_categories: Vec::new(),
            file_name: String::from_str(file_name),
        }
    }

    /// Expands this logger's pattern for a message.
    fn apply_pattern(&self, category: &str, level: Level, message: &str) -> (r: String)
        ensures
            r@ == format_line(self.pattern@, category@, level, message@),
    {
        apply_pattern_text(self.pattern.as_str(), category, level, message)
    }
}

impl Logger for FileLogger {
    /// Accepts a message whose category is not disabled and whose level
    /// reaches the threshold.
    open spec fn spec_enabled(&self, category: Seq<char>, level: Level) -> bool {
        !seq_contains_str(self.disabled_categories@, category) && level_rank(level) >= level_rank(
            self.level,
        )
    }

    open spec fn spec_format(
        &self,
        category: Seq<char>,
        level: Level,
        message: Seq<char>,
    ) -> Seq<char> {
        format_line(self.pattern@, category, level, message)
    }

    fn log(&self, category: &str, level: Level, message: &str) -> (r: Option<String>) {
        if !contains_str(&self.disabled_categories, category) && level.rank() >= self.level.rank() {
            Some(self.apply_pattern(category, level, message))
        } else {
            None
        }
    }

    fn set_pattern(&mut self, pattern: &str)
        ensures
            final(self).pattern@ == pattern@,
            final(self).level == old(self).level,
            final(self).disabled_categories == old(self).disabled_categories,
            final(self).file_name == old(self).file_name,
    {
        self.pattern = String::from_str(pattern);
    }

    fn disable_category(&mut self, category: &str)
        ensures
            final(self).pattern == old(self).pattern,
            final(self).level == old(self).level,
            final(self).file_name == old(self).file_name,
            final(self).disabled_categories@ == old(self).disabled_categories@.push(
                final(self).disabled_categories@.last(),
            ),
            final(self).disabled_categories@.last()@ == category@,
    {
        self.disabled_categories.push(String::from_str(category));
        proof {
            assert forall|c: Seq<char>, lvl: Level|
                c != category@ implies #[trigger] self.spec_enabled(c, lvl) == old(
                self,
            ).spec_enabled(c, lvl) by {
                let ds = old(self).disabled_categories@;
                assert(seq_contains_str(self.disabled_categories@, c) == seq_contains_str(ds, c))
                    by {
                    if seq_contains_str(ds, c) {
                        let i = choose|i: int| 0 <= i < ds.len() && ds[i]@ == c;
                        assert(self.disabled_categories@[i]@ == c);
                    }
                    if seq_contains_str(self.disabled_categories@, c) {
                        let i = choose|i: int|
                            0 <= i < self.disabled_categories@.len()
                                && self.disabled_categories@[i]@ == c;
                        assert(i < ds.len());
                        assert(ds[i]@ == c);
                    }
                }
            }
            assert forall|lvl: Level| !self.spec_enabled(category@, lvl) by {
                assert(self.disabled_categories@.last()@ == category@);
            }
        }
    }
}

/// The observable description of one configured logger: its kind, its
/// threshold, its pattern, its disabled categories, and — for a file
/// logger — its file name.
#[verifier::ext_equal]
pub struct LoggerModel {
    pub is_file: bool,
    pub level: Level,
    pub pattern: Seq<char>,
    pub disabled: Seq<Seq<char>>,
    pub file_name: Seq<char>,
}

/// The same logger with one more category disabled.
pub open spec fn model_with_disabled(m: LoggerModel, category: Seq<char>) -> LoggerModel {
    LoggerModel { disabled: m.disabled.push(category), ..m }
}

/// One configured logger: console or file.
pub enum LoggerKind {
    Console(ConsoleLogger),
    File(FileLogger),
}

impl LoggerKind {
    /// The observable description of this logger.
    pub open spec fn model(&self) -> LoggerModel {
        match self {
            LoggerKind::Console(c) => LoggerModel {
                is_file: false,
                level: c.level,
                pattern: c.pattern@,
                disabled: c.disabled_categories@.map_values(|s: String| s@),
                file_name: Seq::empty(),
            },
            LoggerKind::File(f) => LoggerModel {
                is_file: true,
                level: f.level,
                pattern: f.pattern@,
                disabled: f.disabled_categories@.map_values(|s: String| s@),
                file_name: f.file_name@,
            },
        }
    }

    /// Whether this logger accepts messages of the category and level.
    pub open spec fn spec_enabled(&self, category: Seq<char>, level: Level) -> bool {
        match self {
            LoggerKind::Console(c) => c.spec_enabled(category, level),
            LoggerKind::File(f) => f.spec_enabled(category, level),
        }
    }

    /// The line this logger formats for an accepted message.
    pub open spec fn spec_format(
        &self,
        category: Seq<char>,
        level: Level,
        message: Seq<char>,
    ) -> Seq<char> {
        match self {
            LoggerKind::Console(c) => c.spec_format(category, level, message),
            LoggerKind::File(f) => f.spec_format(category, level, message),
        }
    }

    /// The formatted line for the message when the filter accepts it.
    pub fn log(&self, category: &str, level: Level, message: &str) -> (r: Option<String>)
        ensures
            match r {
                Some(line) => self.spec_enabled(category@, level) && line@ == self.spec_format(
                    category@,
                    level,
                    message@,
                ),
                None => !self.spec_enabled(category@, level),
            },
    {
        match self {
            LoggerKind::Console(c) => c.log(category, level, message),
            LoggerKind::File(f) => f.log(category, level, message),
        }
    }

    /// Disables a category on this logger.
    fn disable(&mut self, category: &str)
        ensures
            final(self).model() == model_with_disabled(old(self).model(), category@),
    {
        match self {
            LoggerKind::Console(c) => {
                c.disable_category(category);
                proof {
                    assert(self.model() =~~= model_with_disabled(old(self).model(), category@));
                }
            },
            LoggerKind::File(f) => {
                f.disable_category(category);
                proof {
                    assert(self.model() =~~= model_with_disabled(old(self).model(), category@));
                }
            },
        }
    }
}

/// A configuration failure, carrying which parameter was unusable.
#[derive(Debug, Clone, Copy, PartialEq, Eq, Structural)]
pub enum ConfigError {
    /// The global level parameter is not an unsigned integer.
    GlobalLevelType,
    /// The global disabled-categories parameter is not an array.
    GlobalDisabledCategoriesType,
    /// A logger entry names no known logger type.
    UnknownLoggerType,
    /// The loggers parameter is not an array.
    LoggersType,
}

/// The message a configuration failure reads as.
pub open spec fn spec_config_error_message(e: ConfigError) -> Seq<char> {
    match e {
        ConfigError::GlobalLevelType => "parameter globalLevel has wrong type"@,
        ConfigError::GlobalDisabledCategoriesType => "parameter globalDisabledCategories has wrong type"@,
        ConfigError::UnknownLoggerType => "Unknown logger type"@,
        ConfigError::LoggersType => "loggers parameter has wrong type"@,
    }
}

impl ConfigError {
    /// The message this failure reads as.
    pub fn message(&self) -> (r: String)
        ensures
            r@ == spec_config_error_message(*self),
    {
        match self {
            ConfigError::GlobalLevelType => String::from_str("parameter globalLevel has wrong type"),
            ConfigError::GlobalDisabledCategoriesType => String::from_str(
                "parameter globalDisabledCategories has wrong type",
            ),
            ConfigError::UnknownLoggerType => String::from_str("Unknown logger type"),
            ConfigError::LoggersType => String::from_str("loggers parameter has wrong type"),
        }
    }
}

/// The global threshold a configuration asks for: absent means `Trace`,
/// anything but an unsigned integer is a type error.
pub open spec fn spec_global_level(val: JsonValue) -> Result<Level, ConfigError> {
    match val.spec_get("globalLevel"@) {
        Option::None => Ok(Level::Trace),
        Option::Some(v) => match v.spec_as_u64() {
            Option::Some(u) => Ok(spec_level_from_u32(u as u32)),
            Option::None => Err(ConfigError::GlobalLevelType),
        },
    }
}

/// The strings among a list of values, in order; other values are
/// passed over.
pub open spec fn spec_str_items(items: Seq<JsonValue>) -> Seq<Seq<char>>
    decreases items.len(),
{
    if items.len() == 0 {
        Seq::empty()
    } else {
        let rest = spec_str_items(items.drop_first());
        match items[0].spec_as_str() {
            Option::Some(s) => seq![s] + rest,
            Option::None => rest,
        }
    }
}

/// The globally disabled categories a configuration asks for: absent
/// means none, anything but an array is a type error.
pub open spec fn spec_global_disabled(val: JsonValue) -> Result<Seq<Seq<char>>, ConfigError> {
    match val.spec_get("globalDisabledCategories"@) {
        Option::None => Ok(Seq::empty()),
        Option::Some(v) => match v.spec_as_array() {
            Option::Some(items) => Ok(spec_str_items(items)),
            Option::None => Err(ConfigError::GlobalDisabledCategoriesType),
        },
    }
}

/// The threshold one logger entry asks for: `Info` unless an unsigned
/// integer is given.
pub open spec fn spec_cfg_level(cfg: JsonValue) -> Level {
    match cfg.spec_get("level"@) {
        Option::Some(v) => match v.spec_as_u64() {
            Option::Some(u) => spec_level_from_u32(u as u32),
            Option::None => Level::Info,
        },
        Option::None => Level::Info,
    }
}

/// The pattern one logger entry asks for: the default unless a string is
/// given.
pub open spec fn spec_cfg_pattern(cfg: JsonValue) -> Seq<char> {
    match cfg.spec_get("pattern"@) {
        Option::Some(v) => match v.spec_as_str() {
            Option::Some(p) => p,
            Option::None => default_pattern(),
        },
        Option::None => default_pattern(),
    }
}

/// The disabled categories one logger entry asks for: none unless an
/// array is given.
pub open spec fn spec_cfg_disabled(cfg: JsonValue) -> Seq<Seq<char>> {
    match cfg.spec_get("disabledCategories"@) {
        Option::Some(v) => match v.spec_as_array() {
            Option::Some(items) => spec_str_items(items),
            Option::None => Seq::empty(),
        },
        Option::None => Seq::empty(),
    }
}

/// The file name one logger entry asks for: empty unless a string is
/// given.
pub open spec fn spec_cfg_file_name(cfg: JsonValue) -> Seq<char> {
    match cfg.spec_get("filename"@) {
        Option::Some(v) => match v.spec_as_str() {
            Option::Some(s) => s,
            Option::None => ""@,
        },
        Option::None => ""@,
    }
}

/// What one entry of the logger list configures: nothing when the entry
/// is not an object, a console or file logger when its type says so, and
/// otherwise an unknown-type error.
pub open spec fn spec_logger_of(cfg: JsonValue) -> Result<Option<LoggerModel>, ConfigError> {
    if !(cfg is Obj) {
        Ok(Option::None)
    } else {
        match cfg.spec_get("type"@) {
            Option::Some(t) => if t.spec_is_str("console"@) {
                Ok(
                    Option::Some(
                        LoggerModel {
                            is_file: false,
                            level: spec_cfg_level(cfg),
                            pattern: spec_cfg_pattern(cfg),
                            disabled: spec_cfg_disabled(cfg),
                            file_name: Seq::empty(),
                        },
                    ),
                )
            } else if t.spec_is_str("file"@) {
                Ok(
                    Option::Some(
                        LoggerModel {
                            is_file: true,
                            level: spec_cfg_level(cfg),
                            pattern: spec_cfg_pattern(cfg),
                            disabled: spec_cfg_disabled(cfg),
                            file_name: spec_cfg_file_name(cfg),
                        },
                    ),
                )
            } else {
                Err(ConfigError::UnknownLoggerType)
            },
            Option::None => Err(ConfigError::UnknownLoggerType),
        }
    }
}

/// The loggers a list of entries configures, stopping at the first bad
/// entry, together with that entry's error if any.
pub open spec fn spec_build(items: Seq<JsonValue>) -> (Seq<LoggerModel>, Option<ConfigError>)
    decreases items.len(),
{
    if items.len() == 0 {
        (Seq::empty(), Option::None)
    } else {
        match spec_logger_of(items[0]) {
            Result::Err(e) => (Seq::empty(), Option::Some(e)),
            Result::Ok(Option::None) => spec_build(items.drop_first()),
            Result::Ok(Option::Some(m)) => {
                let rest = spec_build(items.drop_first());
                (seq![m] + rest.0, rest.1)
            },
        }
    }
}

/// Every logger with every one of the categories disabled, in order.
pub open spec fn spec_apply_disables(
    models: Seq<LoggerModel>,
    cats: Seq<Seq<char>>,
) -> Seq<LoggerModel>
    decreases cats.len(),
{
    if cats.len() == 0 {
        models
    } else {
        spec_apply_disables(
            models.map_values(|m: LoggerModel| model_with_disabled(m, cats[0])),
            cats.drop_first(),
        )
    }
}

/// The one console logger configured when the logger list ends up empty.
pub open spec fn spec_fallback_logger(level: Level) -> LoggerModel {
    LoggerModel {
        is_file: false,
        level,
        pattern: default_pattern(),
        disabled: Seq::empty(),
        file_name: Seq::empty(),
    }
}

/// Everything one configuration value configures: the loggers the
/// manager ends up with, and the result. On a type error the manager
/// keeps the loggers built before the error was met.
pub open spec fn spec_configure(val: JsonValue) -> (Seq<LoggerModel>, Result<(), ConfigError>) {
    match spec_global_level(val) {
        Result::Err(e) => (Seq::empty(), Err(e)),
        Result::Ok(glevel) => match spec_global_disabled(val) {
            Result::Err(e) => (Seq::empty(), Err(e)),
            Result::Ok(gdis) => {
                let built = match val.spec_get("loggers"@) {
                    Option::None => (Seq::empty(), Option::<ConfigError>::None),
                    Option::Some(v) => match v.spec_as_array() {
                        Option::Some(items) => spec_build(items),
                        Option::None => (
                            Seq::empty(),
                            Option::Some(ConfigError::LoggersType),
                        ),
                    },
                };
                match built.1 {
                    Option::Some(e) => (built.0, Err(e)),
                    Option::None => {
                        let base = if built.0.len() == 0 {
                            seq![spec_fallback_logger(glevel)]
                        } else {
                            built.0
                        };
                        (spec_apply_disables(base, gdis), Ok(()))
                    },
                }
            },
        },
    }
}

/// Collects the strings of a value list, in order.
#[verifier::loop_isolation(false)]
fn collect_strs(items: &Vec<JsonValue>) -> (r: Vec<String>)
    ensures
        r@.map_values(|s: String| s@) == spec_str_items(items@),
{
    let mut out: Vec<String> = Vec::new();
    let mut i: usize = 0;
    proof {
        assert(items@.skip(0) =~= items@);
        assert(out@.map_values(|s: String| s@) =~= Seq::<Seq<char>>::empty());
    }
    while i < items.len()
        invariant
            0 <= i <= items@.len(),
            spec_str_items(items@) =~= out@.map_values(|s: String| s@) + spec_str_items(
                items@.skip(i as int),
            ),
        decreases items@.len() - i,
    {
        proof {
            assert(items@.skip(i as int)[0] == items@[i as int]);
            assert(items@.skip(i as int).drop_first() =~= items@.skip(i as int + 1));
        }
        let ghost old_out = out@;
        match items[i].as_str() {
            Some(s) => {
                out.push(String::from_str(s));
                proof {
                    assert(out@.map_values(|s2: String| s2@) =~= old_out.map_values(
                        |s2: String| s2@,
                    ).push(items@[i as int].spec_as_str()->Some_0));
                    assert(old_out.map_values(|s2: String| s2@).push(
                        items@[i as int].spec_as_str()->Some_0,
                    ) + spec_str_items(items@.skip(i as int + 1)) =~= old_out.map_values(
                        |s2: String| s2@,
                    ) + (seq![items@[i as int].spec_as_str()->Some_0] + spec_str_items(
                        items@.skip(i as int + 1),
                    )));
                }
            },
            None => {},
        }
        i += 1;
    }
    proof {
        assert(items@.skip(items@.len() as int) =~= Seq::<JsonValue>::empty());
        assert(spec_str_items(items@) =~= out@.map_values(|s: String| s@));
    }
    out
}

/// The threshold one logger entry asks for.
fn cfg_level(cfg: &JsonValue) -> (r: Level)
    ensures
        r == spec_cfg_level(*cfg),
{
    match cfg.get("level") {
        Some(v) => match v.as_u64() {
            Some(u) => {
                let truncated: u32 = #[verifier::truncate] (u as u32);
                Level::from_u32(truncated)
            },
            None => Level::Info,
        },
        None => Level::Info,
    }
}

/// The pattern one logger entry asks for.
fn cfg_pattern(cfg: &JsonValue) -> (r: String)
    ensures
        r@ == spec_cfg_pattern(*cfg),
{
    match cfg.get("pattern") {
        Some(v) => match v.as_str() {
            Some(p) => String::from_str(p),
            None => String::from_str("%D %T %L [%C]: %M"),
        },
        None => String::from_str("%D %T %L [%C]: %M"),
    }
}

/// The disabled categories one logger entry asks for.
fn cfg_disabled(cfg: &JsonValue) -> (r: Vec<String>)
    ensures
        r@.map_values(|s: String| s@) == spec_cfg_disabled(*cfg),
{
    match cfg.get("disabledCategories") {
        Some(v) => match v.as_array() {
            Some(items) => collect_strs(items),
            None => {
                let empty: Vec<String> = Vec::new();
                proof {
                    assert(empty@.map_values(|s: String| s@) =~= Seq::<Seq<char>>::empty());
                }
                empty
            },
        },
        None => {
            let empty: Vec<String> = Vec::new();
            proof {
                assert(empty@.map_values(|s: String| s@) =~= Seq::<Seq<char>>::empty());
            }
            empty
        },
    }
}

/// The file name one logger entry asks for.
fn cfg_file_name(cfg: &JsonValue) -> (r: String)
    ensures
        r@ == spec_cfg_file_name(*cfg),
{
    proof {
        reveal_strlit("");
        assert(""@ =~= Seq::<char>::empty());
    }
    match cfg.get("filename") {
        Some(v) => match v.as_str() {
            Some(s) => String::from_str(s),
            None => String::new(),
        },
        None => String::new(),
    }
}

/// Builds the logger one entry of the logger list configures, if any.
fn build_logger(cfg: &JsonValue) -> (r: Result<Option<LoggerKind>, ConfigError>)
    ensures
        match r {
            Ok(Some(k)) => spec_logger_of(*cfg) == Ok::<Option<LoggerModel>, ConfigError>(
                Some(k.model()),
            ),
            Ok(None) => spec_logger_of(*cfg) == Ok::<Option<LoggerModel>, ConfigError>(
                Option::None,
            ),
            Err(e) => spec_logger_of(*cfg) == Err::<Option<LoggerModel>, ConfigError>(e),
        },
{
    match cfg {
        JsonValue::Obj(_) => {
            match cfg.get("type") {
                Some(t) => {
                    if t.is_str("console") {
                        let logger = ConsoleLogger {
                            level: cfg_level(cfg),
                            pattern: cfg_pattern(cfg),
                            disabled_categories: cfg_disabled(cfg),
                        };
                        let k = LoggerKind::Console(logger);
                        proof {
                            assert(k.model() =~~= spec_logger_of(*cfg)->Ok_0->Some_0);
                        }
                        Ok(Some(k))
                    } else if t.is_str("file") {
                        let logger = FileLogger {
                            level: cfg_level(cfg),
                            pattern: cfg_pattern(cfg),
                            disabled_categories: cfg_disabled(cfg),
                            file_name: cfg_file_name(cfg),
                        };
                        let k = LoggerKind::File(logger);
                        proof {
                            assert(k.model() =~~= spec_logger_of(*cfg)->Ok_0->Some_0);
                        }
                        Ok(Some(k))
                    } else {
                        Err(ConfigError::UnknownLoggerType)
                    }
                },
                None => Err(ConfigError::UnknownLoggerType),
            }
        },
        _ => Ok(None),
    }
}

/// The lines a list of loggers formats for one message: each logger that
/// accepts it contributes its line, in logger order.
pub open spec fn spec_manager_log(
    loggers: Seq<LoggerKind>,
    category: Seq<char>,
    level: Level,
    message: Seq<char>,
) -> Seq<Seq<char>>
    decreases loggers.len(),
{
    if loggers.len() == 0 {
        Seq::empty()
    } else {
        let rest = spec_manager_log(loggers.drop_first(), category, level, message);
        if loggers[0].spec_enabled(category, level) {
            seq![loggers[0].spec_format(category, level, message)] + rest
        } else {
            rest
        }
    }
}

/// A set of configured loggers driven together: a message goes to every
/// logger, and reconfiguration replaces the whole set.
pub struct LoggerManager {
    /// The configured loggers, in configuration order.
    pub loggers: Vec<LoggerKind>,
}

impl LoggerManager {
    /// A manager with no loggers configured.
    pub fn new() -> (r: Self)
        ensures
            r.loggers@ =~= Seq::<LoggerKind>::empty(),
    {
        LoggerManager { loggers: Vec::new() }
    }

    /// The observable description of the configured loggers.
    pub open spec fn models(&self) -> Seq<LoggerModel> {
        self.loggers@.map_values(|k: LoggerKind| k.model())
    }

    /// Disables a category on every configured logger.
    #[verifier::loop_isolation(false)]
    pub fn disable_category(&mut self, category: &str)
        ensures
            final(self).loggers@.len() == old(self).loggers@.len(),
            forall|i: int|
                0 <= i < old(self).loggers@.len() ==> (#[trigger] final(self).loggers@[i]).model()
                    == model_with_disabled(old(self).loggers@[i].model(), category@),
    {
        let mut i: usize = 0;
        while i < self.loggers.len()
            invariant
                0 <= i <= self.loggers@.len(),
                self.loggers@.len() == old(self).loggers@.len(),
                forall|j: int|
                    0 <= j < i ==> (#[trigger] self.loggers@[j]).model() == model_with_disabled(
                        old(self).loggers@[j].model(),
                        category@,
                    ),
                forall|j: int|
                    i <= j < self.loggers@.len() ==> #[trigger] self.loggers@[j] == old(
                        self,
                    ).loggers@[j],
            decreases self.loggers@.len() - i,
        {
            let logger = &mut self.loggers[i];
            logger.disable(category);
            i += 1;
        }
    }

    /// The lines the configured loggers format for one message, in
    /// logger order; the embedding program emits them.
    #[verifier::loop_isolation(false)]
    pub fn log(&self, category: &str, level: Level, message: &str) -> (r: Vec<String>)
        ensures
            r@.map_values(|s: String| s@) == spec_manager_log(
                self.loggers@,
                category@,
                level,
                message@,
            ),
    {
        let mut out: Vec<String> = Vec::new();
        let mut i: usize = 0;
        proof {
            assert(self.loggers@.skip(0) =~= self.loggers@);
            assert(out@.map_values(|s: String| s@) =~= Seq::<Seq<char>>::empty());
        }
        while i < self.loggers.len()
            invariant
                0 <= i <= self.loggers@.len(),
                spec_manager_log(self.loggers@, category@, level, message@) =~= out@.map_values(
                    |s: String| s@,
                ) + spec_manager_log(self.loggers@.skip(i as int), category@, level, message@),
            decreases self.loggers@.len() - i,
        {
            proof {
                assert(self.loggers@.skip(i as int)[0] == self.loggers@[i as int]);
                assert(self.loggers@.skip(i as int).drop_first() =~= self.loggers@.skip(
                    i as int + 1,
                ));
            }
            let ghost old_out = out@;
            match self.loggers[i].log(category, level, message) {
                Some(line) => {
                    let ghost line_view = line@;
                    out.push(line);
                    proof {
                        assert(out@.map_values(|s: String| s@) =~= old_out.map_values(
                            |s: String| s@,
                        ).push(line_view));
                        assert(old_out.map_values(|s: String| s@).push(line_view)
                            + spec_manager_log(
                            self.loggers@.skip(i as int + 1),
                            category@,
                            level,
                            message@,
                        ) =~= old_out.map_values(|s: String| s@) + (seq![line_view]
                            + spec_manager_log(
                            self.loggers@.skip(i as int + 1),
                            category@,
                            level,
                            message@,
                        )));
                    }
                },
                None => {},
            }
            i += 1;
        }
        proof {
            assert(self.loggers@.skip(self.loggers@.len() as int) =~= Seq::<LoggerKind>::empty());
        }
        out
    }

    /// Replaces the configured loggers with what the configuration value
    /// asks for: an optional global threshold, optional globally disabled
    /// categories, and a list of logger entries; an empty outcome falls
    /// back to one console logger at the global threshold. On a type
    /// error the loggers built before the error was met are kept.
    #[verifier::loop_isolation(false)]
    #[verifier::rlimit(30)]
    pub fn configure(&mut self, val: &JsonValue) -> (r: Result<(), ConfigError>)
        ensures
            r == spec_configure(*val).1,
            final(self).models() == spec_configure(*val).0,
    {
        self.loggers.clear();
        proof {
            assert(self.models() =~= Seq::<LoggerModel>::empty());
        }

        let mut global_level = Level::Trace;
        match val.get("globalLevel") {
            Some(level_val) => match level_val.as_u64() {
                Some(u) => {
                    let truncated: u32 = #[verifier::truncate] (u as u32);
                    global_level = Level::from_u32(truncated);
                },
                None => {
                    return Err(ConfigError::GlobalLevelType);
                },
            },
            None => {},
        }
        proof {
            assert(spec_global_level(*val) == Ok::<Level, ConfigError>(global_level));
        }

        let mut global_disabled: Vec<String> = Vec::new();
        match val.get("globalDisabledCategories") {
            Some(v) => match v.as_array() {
                Some(items) => {
                    global_disabled = collect_strs(items);
                },
                None => {
                    return Err(ConfigError::GlobalDisabledCategoriesType);
                },
            },
            None => {
                proof {
                    assert(global_disabled@.map_values(|s: String| s@) =~= Seq::<
                        Seq<char>,
                    >::empty());
                }
            },
        }
        let ghost gdis = global_disabled@.map_values(|s: String| s@);
        proof {
            assert(spec_global_disabled(*val) == Ok::<Seq<Seq<char>>, ConfigError>(gdis));
        }

        match val.get("loggers") {
            Some(v) => match v.as_array() {
                Some(items) => {
                    let mut i: usize = 0;
                    proof {
                        assert(items@.skip(0) =~= items@);
                    }
                    while i < items.len()
                        invariant
                            0 <= i <= items@.len(),
                            spec_build(items@).0 =~= self.models() + spec_build(
                                items@.skip(i as int),
                            ).0,
                            spec_build(items@).1 == spec_build(items@.skip(i as int)).1,
                        decreases items@.len() - i,
                    {
                        proof {
                            assert(items@.skip(i as int)[0] == items@[i as int]);
                            assert(items@.skip(i as int).drop_first() =~= items@.skip(
                                i as int + 1,
                            ));
                        }
                        let ghost old_models = self.models();
                        match build_logger(&items[i]) {
                            Err(e) => {
                                proof {
                                    assert(spec_build(items@.skip(i as int)).0 =~= Seq::<
                                        LoggerModel,
                                    >::empty());
                                    assert(spec_configure(*val).0 =~= self.models());
                                }
                                return Err(e);
                            },
                            Ok(Some(k)) => {
                                let ghost km = k.model();
                                self.loggers.push(k);
                                proof {
                                    assert(self.models() =~= old_models.push(km));
                                    assert(old_models.push(km) + spec_build(
                                        items@.skip(i as int + 1),
                                    ).0 =~= old_models + (seq![km] + spec_build(
                                        items@.skip(i as int + 1),
                                    ).0));
                                }
                            },
                            Ok(None) => {},
                        }
                        i += 1;
                    }
                    proof {
                        assert(items@.skip(items@.len() as int) =~= Seq::<JsonValue>::empty());
                        assert(spec_build(items@).1 is None);
                        assert(spec_build(items@).0 =~= self.models());
                    }
                },
                None => {
                    return Err(ConfigError::LoggersType);
                },
            },
            None => {},
        }

        if self.loggers.len() == 0 {
            let ghost before = self.models();
            self.loggers.push(LoggerKind::Console(ConsoleLogger::new(global_level)));
            proof {
                assert(self.models() =~= before.push(self.loggers@.last().model()));
                assert(self.loggers@.last().model() =~~= spec_fallback_logger(global_level));
                assert(self.models() =~= seq![spec_fallback_logger(global_level)]);
            }
        }

        let ghost base = self.models();
        let mut ci: usize = 0;
        proof {
            assert(gdis.skip(0) =~= gdis);
        }
        while ci < global_disabled.len()
            invariant
                0 <= ci <= global_disabled@.len(),
                gdis == global_disabled@.map_values(|s: String| s@),
                spec_apply_disables(base, gdis) == spec_apply_disables(
                    self.models(),
                    gdis.skip(ci as int),
                ),
            decreases global_disabled@.len() - ci,
        {
            proof {
                assert(gdis.skip(ci as int)[0] == gdis[ci as int]);
                assert(gdis.skip(ci as int).drop_first() =~= gdis.skip(ci as int + 1));
            }
            let ghost models_before = self.models();
            let cat = &global_disabled[ci];
            self.disable_category(cat.as_str());
            proof {
                assert(self.models() =~= models_before.map_values(
                    |m: LoggerModel| model_with_disabled(m, gdis[ci as int]),
                ));
            }
            ci += 1;
        }
        proof {
            assert(gdis.skip(gdis.len() as int) =~= Seq::<Seq<char>>::empty());
            assert(spec_configure(*val).0 == spec_apply_disables(base, gdis));
        }
        Ok(())
    }
}

} // verus!
