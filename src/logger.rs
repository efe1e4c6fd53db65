//! The logging cascade: an external configuration file when one loads,
//! otherwise a configuration of independently thresholded sinks built from
//! the options, with every degradation kept as a message for later.

use vstd::prelude::*;
use vstd::string::*;

use crate::level::{level_or, parse_level_or, passes, Severity};
use crate::options::Options;
use crate::text::{decimal_value, ends_with, strip_suffix};

use log4rs::append::rolling_file::policy::compound::roll::fixed_window::FixedWindowRoller;

verus! {

#[verifier::external_type_specification]
#[verifier::external_body]
pub struct ExFixedWindowRoller(FixedWindowRoller);

/// The archive pattern and the number of archives a roller was built with.
pub uninterp spec fn roller_window(r: FixedWindowRoller) -> (Seq<char>, nat);

/// Relies on log4rs's `FixedWindowRollerBuilder::build`, which fails only for
/// a pattern without `{}` or one whose extension is `gz` or `zst` (a pattern
/// ending in `.{}.jsonlog` has neither fault), and otherwise keeps the
/// pattern and the count it was given.
#[verifier::external_body]
fn build_fixed_window_roller(pattern: &str, count: u32) -> (r: FixedWindowRoller)
    requires
        ends_with(pattern@, ".{}.jsonlog"@),
    ensures
        roller_window(r) == (pattern@, count as nat),
{
    FixedWindowRoller::builder().build(pattern, count).expect("pattern holds `{}` and is not compressed")
}

/// Where a sink writes its records.
#[derive(Clone, Debug)]
pub enum SinkTarget {
    /// The standard error stream.
    Console,
    /// A text file, deleted once it grows past `max_bytes`.
    RotatingText { path: String, max_bytes: u64 },
    /// A structured (JSON) file. Past `max_bytes` it is rolled into `pattern`
    /// with `{}` replaced by the generation, keeping `max_generations` of them.
    RotatingJson { path: String, pattern: String, max_bytes: u64, max_generations: u32 },
}

/// One output of the logger with its own threshold.
#[derive(Clone, Debug)]
pub struct SinkSpec {
    pub target: SinkTarget,
    pub threshold: Severity,
}

/// The logger to install: a threshold for the whole, and its sinks in order.
#[derive(Clone, Debug)]
pub struct LoggerPlan {
    pub root: Severity,
    pub sinks: Vec<SinkSpec>,
}

/// What a sink target is, as mathematical values.
pub enum TargetModel {
    Console,
    RotatingText { path: Seq<char>, max_bytes: nat },
    RotatingJson { path: Seq<char>, pattern: Seq<char>, max_bytes: nat, max_generations: nat },
}

/// What a sink is, as mathematical values.
pub struct SinkModel {
    pub target: TargetModel,
    pub threshold: Severity,
}

/// What a logger plan is, as mathematical values.
pub struct PlanModel {
    pub root: Severity,
    pub sinks: Seq<SinkModel>,
}

impl View for SinkTarget {
    type V = TargetModel;

    open spec fn view(&self) -> TargetModel {
        match self {
            SinkTarget::Console => TargetModel::Console,
            SinkTarget::RotatingText { path, max_bytes } => TargetModel::RotatingText {
                path: path@,
                max_bytes: *max_bytes as nat,
            },
            SinkTarget::RotatingJson { path, pattern, max_bytes, max_generations } =>
                TargetModel::RotatingJson {
                path: path@,
                pattern: pattern@,
                max_bytes: *max_bytes as nat,
                max_generations: *max_generations as nat,
            },
        }
    }
}

impl View for SinkSpec {
    type V = SinkModel;

    open spec fn view(&self) -> SinkModel {
        SinkModel { target: self.target@, threshold: self.threshold }
    }
}

impl View for LoggerPlan {
    type V = PlanModel;

    open spec fn view(&self) -> PlanModel {
        PlanModel { root: self.root, sinks: self.sinks@.map_values(|s: SinkSpec| s@) }
    }
}

/// The characters of each message.
pub open spec fn texts(msgs: Seq<String>) -> Seq<Seq<char>> {
    msgs.map_values(|m: String| m@)
}

/// The name a sink is registered under.
pub open spec fn sink_name(t: TargetModel) -> Seq<char> {
    match t {
        TargetModel::Console => "stderr"@,
        TargetModel::RotatingText { .. } => "file"@,
        TargetModel::RotatingJson { .. } => "json"@,
    }
}

/// Whether a record of severity `record` reaches sink `i` of `plan`: it must
/// pass both the logger's threshold and the sink's.
pub open spec fn delivers(plan: PlanModel, i: int, record: Severity) -> bool {
    passes(record, plan.root) && passes(record, plan.sinks[i].threshold)
}

/// No two sinks of `sinks` are registered under the same name.
pub open spec fn distinct_names(sinks: Seq<SinkModel>) -> bool {
    forall|a: int, b: int|
        0 <= a < b < sinks.len() ==> sink_name(#[trigger] sinks[a].target) != sink_name(
            #[trigger] sinks[b].target,
        )
}

/// Suffix that the first structured log file must carry.
pub open spec fn json_suffix() -> Seq<char> {
    ".0.jsonlog"@
}

/// The rollover pattern of a structured log path: the generation `0` of its
/// `.0.jsonlog` suffix becomes `{}`. `None` when the path lacks the suffix.
pub open spec fn json_pattern(path: Seq<char>) -> Option<Seq<char>> {
    if ends_with(path, json_suffix()) {
        Some(path.subrange(0, path.len() - json_suffix().len()) + ".{}.jsonlog"@)
    } else {
        None
    }
}

/// Message recorded for a structured log path without the `.0.jsonlog` suffix.
pub open spec fn bad_json_path_message(path: Seq<char>) -> Seq<char> {
    "Log json path does not end with .0.jsonlog: "@ + path
}

/// The console sink, unless `no-stderr` is set.
pub open spec fn console_sinks(o: Options) -> Seq<SinkModel> {
    if o.no_stderr {
        seq![]
    } else {
        seq![SinkModel { target: TargetModel::Console, threshold: o.spec_stderr_threshold() }]
    }
}

/// The structured sink, when `log-json` names a path with the right suffix.
pub open spec fn json_sinks(o: Options) -> Seq<SinkModel> {
    match o.log_json {
        Some(p) => match json_pattern(p@) {
            Some(pattern) => seq![
                SinkModel {
                    target: TargetModel::RotatingJson {
                        path: p@,
                        pattern,
                        max_bytes: o.spec_file_size(),
                        max_generations: o.spec_json_count(),
                    },
                    threshold: o.spec_json_threshold(),
                },
            ],
            None => seq![],
        },
        None => seq![],
    }
}

/// What the structured sink leaves to report.
pub open spec fn json_messages(o: Options) -> Seq<Seq<char>> {
    match o.log_json {
        Some(p) => if json_pattern(p@) is Some {
            seq![]
        } else {
            seq![bad_json_path_message(p@)]
        },
        None => seq!["Not logging json file!"@],
    }
}

/// The text file sink, when `log-file` names a path.
pub open spec fn file_sinks(o: Options) -> Seq<SinkModel> {
    match o.log_file {
        Some(p) => seq![
            SinkModel {
                target: TargetModel::RotatingText { path: p@, max_bytes: o.spec_file_size() },
                threshold: o.spec_file_threshold(),
            },
        ],
        None => seq![],
    }
}

/// What the text file sink leaves to report.
pub open spec fn file_messages(o: Options) -> Seq<Seq<char>> {
    match o.log_file {
        Some(_) => seq![],
        None => seq!["Not logging to file!"@],
    }
}

/// The logger's own threshold: `log-level`, or `Debug` when it names no
/// severity.
pub open spec fn root_level(o: Options) -> Severity {
    level_or(o.log_level@, Severity::Debug)
}

/// The configuration synthesized from the options: console, structured
/// file, text file, each present as the options ask.
pub open spec fn default_plan(o: Options) -> PlanModel {
    PlanModel { root: root_level(o), sinks: console_sinks(o) + json_sinks(o) + file_sinks(o) }
}

/// The messages that synthesizing the configuration records.
pub open spec fn default_messages(o: Options) -> Seq<Seq<char>> {
    json_messages(o) + file_messages(o)
}

impl SinkSpec {
    /// The name the sink is registered under: `stderr`, `json` or `file`.
    pub fn name(&self) -> (r: &'static str)
        ensures
            r@ == sink_name(self.target@),
    {
        match self.target {
            SinkTarget::Console => "stderr",
            SinkTarget::RotatingText { .. } => "file",
            SinkTarget::RotatingJson { .. } => "json",
        }
    }
}

impl LoggerPlan {
    /// Whether a record of severity `record` reaches sink `i`.
    pub fn delivers(&self, i: usize, record: Severity) -> (r: bool)
        requires
            i < self.sinks@.len(),
        ensures
            r == delivers(self@, i as int, record),
    {
        self.root.admits(record) && self.sinks[i].threshold.admits(record)
    }
}

/// Synthesizes the logger configuration from the options. The console sink
/// is present unless `no-stderr` is set; the structured sink when `log-json`
/// names a path ending in `.0.jsonlog`; the text sink when `log-file` names a
/// path. Each has the threshold of its own option; both files roll over at
/// `log-file-size`. A threshold option that names no severity falls back
/// to the flag's default: `debug` for the console and for the logger as a
/// whole, `info` for both files. A missing or malformed path is reported among the
/// returned messages, never raised. With `no-stderr` set and neither path
/// usable the plan has no sink at all: it is still a valid plan, whose
/// logger accepts records and writes them nowhere.
pub fn default_logger_config(options: &Options) -> (r: (LoggerPlan, Vec<String>))
    ensures
        r.0@ == default_plan(*options),
        texts(r.1@) == default_messages(*options),
{
    let mut sinks: Vec<SinkSpec> = Vec::new();
    let mut msgs: Vec<String> = Vec::new();
    if !options.no_stderr {
        let threshold = parse_level_or(options.log_level_stderr.as_str(), Severity::Debug);
        sinks.push(SinkSpec { target: SinkTarget::Console, threshold });
    }
    assert(sinks@.map_values(|s: SinkSpec| s@) == console_sinks(*options));
    assert(texts(msgs@) == Seq::<Seq<char>>::empty());
    let ghost s1 = sinks@;
    let ghost m1 = msgs@;
    match &options.log_json {
        Some(first_file) => match strip_suffix(first_file.as_str(), ".0.jsonlog") {
            Some(stem) => {
                let mut pattern = String::from_str(stem);
                pattern.append(".{}.jsonlog");
                let threshold = parse_level_or(options.log_level_json.as_str(), Severity::Info);
                let target = SinkTarget::RotatingJson {
                    path: first_file.clone(),
                    pattern,
                    max_bytes: options.file_size(),
                    max_generations: options.json_count(),
                };
                sinks.push(SinkSpec { target, threshold });
            },
            None => {
                let mut msg = String::from_str("Log json path does not end with .0.jsonlog: ");
                msg.append(first_file.as_str());
                msgs.push(msg);
            },
        },
        None => msgs.push(String::from_str("Not logging json file!")),
    }
    assert(sinks@.map_values(|s: SinkSpec| s@) == console_sinks(*options) + json_sinks(*options));
    assert(texts(msgs@) == json_messages(*options));
    match &options.log_file {
        Some(path) => {
            let threshold = parse_level_or(options.log_level_file.as_str(), Severity::Info);
            let target = SinkTarget::RotatingText { path: path.clone(), max_bytes: options.file_size() };
            sinks.push(SinkSpec { target, threshold });
        },
        None => msgs.push(String::from_str("Not logging to file!")),
    }
    assert(sinks@.map_values(|s: SinkSpec| s@) == console_sinks(*options) + json_sinks(*options)
        + file_sinks(*options));
    assert(texts(msgs@) == default_messages(*options));
    let root = parse_level_or(options.log_level.as_str(), Severity::Debug);
    (LoggerPlan { root, sinks }, msgs)
}

/// What became of loading the external configuration file.
#[derive(Clone, Debug)]
pub enum ExternalLoad {
    /// No file was named.
    NotRequested,
    /// The file loaded and is a usable configuration.
    Loaded,
    /// The file could not be read or parsed, for the given cause.
    Failed(String),
}

/// The configuration chosen to install.
#[derive(Clone, Debug)]
pub enum LoggingChoice {
    /// The configuration loaded from the external file, as it stands.
    External,
    /// The configuration synthesized from the options.
    Synthesized(LoggerPlan),
}

/// Message recorded when the external file loads.
pub open spec fn loaded_message(path: Seq<char>) -> Seq<char> {
    "Initialized log4rs config "@ + path
}

/// Message recorded when the external file fails to load.
pub open spec fn load_failed_message(path: Seq<char>, cause: Seq<char>) -> Seq<char> {
    "Failed to initialize log4rs config "@ + path + ", "@ + cause
}

/// Message recorded when no external file is named.
pub open spec fn not_provided_message() -> Seq<char> {
    "log4rs config not provided"@
}

/// Chooses the configuration to install. A loaded external file wins;
/// otherwise (none named, or it failed to load) the configuration is
/// synthesized from the options. The messages say what happened, the load
/// first, then those of the synthesis.
pub fn resolve_logging(options: &Options, load: ExternalLoad) -> (r: (LoggingChoice, Vec<String>))
    requires
        load is NotRequested <==> options.log4rs_config is None,
    ensures
        load is Loaded ==> r.0 is External && texts(r.1@) == seq![
            loaded_message(options.log4rs_config.unwrap()@),
        ],
        !(load is Loaded) ==> (r.0 matches LoggingChoice::Synthesized(p) && p@ == default_plan(*options)),
        load is NotRequested ==> texts(r.1@) == seq![not_provided_message()] + default_messages(*options),
        load matches ExternalLoad::Failed(cause) ==> texts(r.1@) == seq![
            load_failed_message(options.log4rs_config.unwrap()@, cause@),
        ] + default_messages(*options),
{
    let mut msgs: Vec<String> = Vec::new();
    match (&options.log4rs_config, &load) {
        (Some(path), ExternalLoad::Loaded) => {
            let mut msg = String::from_str("Initialized log4rs config ");
            msg.append(path.as_str());
            msgs.push(msg);
            assert(texts(msgs@) == seq![loaded_message(path@)]);
            return (LoggingChoice::External, msgs);
        },
        (Some(path), ExternalLoad::Failed(cause)) => {
            let mut msg = String::from_str("Failed to initialize log4rs config ");
            msg.append(path.as_str());
            msg.append(", ");
            msg.append(cause.as_str());
            msgs.push(msg);
        },
        _ => msgs.push(String::from_str("log4rs config not provided")),
    }
    let ghost first = texts(msgs@);
    let (plan, mut rest) = default_logger_config(options);
    let ghost later = texts(rest@);
    msgs.append(&mut rest);
    assert(texts(msgs@) == first + later);
    (LoggingChoice::Synthesized(plan), msgs)
}

/// Message recorded when a sink could not be built.
pub open spec fn sink_failed_message(cause: Seq<char>) -> Seq<char> {
    "Failed to create logger for "@ + cause
}

/// The sinks whose construction succeeded, in order.
pub open spec fn kept_sinks(sinks: Seq<SinkModel>, outcomes: Seq<Result<(), String>>) -> Seq<SinkModel>
    recommends
        sinks.len() == outcomes.len(),
    decreases sinks.len(),
{
    if sinks.len() == 0 || outcomes.len() == 0 {
        seq![]
    } else {
        let earlier = kept_sinks(sinks.drop_last(), outcomes.drop_last());
        if outcomes.last() is Ok {
            earlier.push(sinks.last())
        } else {
            earlier
        }
    }
}

/// One message per failed construction, in order.
pub open spec fn failure_messages(outcomes: Seq<Result<(), String>>) -> Seq<Seq<char>>
    decreases outcomes.len(),
{
    if outcomes.len() == 0 {
        seq![]
    } else {
        let earlier = failure_messages(outcomes.drop_last());
        match outcomes.last() {
            Ok(_) => earlier,
            Err(cause) => earlier.push(sink_failed_message(cause@)),
        }
    }
}

/// The roller of a structured sink, built on the sink's `pattern` and
/// `max_generations`: past its size the file becomes generation 1 of
/// `pattern`, older generations move up, and at most `max_generations` are
/// kept. `None` for a sink of another kind, or for a pattern that does not
/// end in `.{}.jsonlog`.
pub fn json_roller(sink: &SinkSpec) -> (r: Option<FixedWindowRoller>)
    ensures
        r is Some <==> (sink.target matches SinkTarget::RotatingJson { pattern, .. } && ends_with(
            pattern@,
            ".{}.jsonlog"@,
        )),
        r matches Some(roller) ==> (sink.target matches SinkTarget::RotatingJson {
            pattern,
            max_generations,
            ..
        } && roller_window(roller) == (pattern@, max_generations as nat)),
{
    match &sink.target {
        SinkTarget::RotatingJson { pattern, max_generations, .. } => {
            if strip_suffix(pattern.as_str(), ".{}.jsonlog").is_some() {
                Some(build_fixed_window_roller(pattern.as_str(), *max_generations))
            } else {
                None
            }
        },
        _ => None,
    }
}

/// A copy of a sink, field by field.
fn copy_sink(s: &SinkSpec) -> (r: SinkSpec)
    ensures
        r@ == s@,
{
    let target = match &s.target {
        SinkTarget::Console => SinkTarget::Console,
        SinkTarget::RotatingText { path, max_bytes } => SinkTarget::RotatingText {
            path: path.clone(),
            max_bytes: *max_bytes,
        },
        SinkTarget::RotatingJson { path, pattern, max_bytes, max_generations } =>
            SinkTarget::RotatingJson {
            path: path.clone(),
            pattern: pattern.clone(),
            max_bytes: *max_bytes,
            max_generations: *max_generations,
        },
    };
    SinkSpec { target, threshold: s.threshold }
}

/// Settles a plan against the outcome of building each of its sinks
/// (`outcomes[i]` for sink `i`): the sinks that could not be built are
/// dropped and each failure becomes a message; the rest of the plan stands.
pub fn settle_sinks(plan: &LoggerPlan, outcomes: &Vec<Result<(), String>>) -> (r: (LoggerPlan, Vec<String>))
    requires
        outcomes@.len() == plan.sinks@.len(),
    ensures
        r.0@ == (PlanModel { root: plan.root, sinks: kept_sinks(plan@.sinks, outcomes@) }),
        texts(r.1@) == failure_messages(outcomes@),
        distinct_names(plan@.sinks) ==> distinct_names(r.0@.sinks),
{
    let mut sinks: Vec<SinkSpec> = Vec::new();
    let mut msgs: Vec<String> = Vec::new();
    let n = plan.sinks.len();
    let mut i: usize = 0;
    // `picked[a]` is the index in the plan of the `a`-th kept sink.
    let ghost mut picked: Seq<int> = seq![];
    while i < n
        invariant
            picked.len() == sinks@.len(),
            forall|a: int| 0 <= a < picked.len() ==> 0 <= #[trigger] picked[a] < i,
            forall|a: int, b: int| 0 <= a < b < picked.len() ==> picked[a] < picked[b],
            forall|a: int|
                0 <= a < picked.len() ==> #[trigger] sinks@[a]@ == plan@.sinks[picked[a]],
            n == plan.sinks@.len(),
            n == outcomes@.len(),
            i <= n,
            sinks@.map_values(|s: SinkSpec| s@) == kept_sinks(
                plan@.sinks.subrange(0, i as int),
                outcomes@.subrange(0, i as int),
            ),
            texts(msgs@) == failure_messages(outcomes@.subrange(0, i as int)),
        decreases n - i,
    {
        assert(plan@.sinks.subrange(0, i + 1).drop_last() == plan@.sinks.subrange(0, i as int));
        assert(outcomes@.subrange(0, i + 1).drop_last() == outcomes@.subrange(0, i as int));
        match &outcomes[i] {
            Ok(_) => {
                sinks.push(copy_sink(&plan.sinks[i]));
                proof {
                    picked = picked.push(i as int);
                }
            },
            Err(cause) => {
                let mut msg = String::from_str("Failed to create logger for ");
                msg.append(cause.as_str());
                msgs.push(msg);
            },
        }
        i = i + 1;
    }
    assert(plan@.sinks.subrange(0, n as int) == plan@.sinks);
    assert(outcomes@.subrange(0, n as int) == outcomes@);
    let r = LoggerPlan { root: plan.root, sinks };
    assert forall|a: int| 0 <= a < r@.sinks.len() implies #[trigger] r@.sinks[a] == plan@.sinks[picked[a]] by {
        assert(r.sinks@[a]@ == plan@.sinks[picked[a]]);
    }
    (r, msgs)
}

/// Every file sink of `sinks` rolls over at `size` bytes.
pub open spec fn file_sinks_roll_at(sinks: Seq<SinkModel>, size: nat) -> bool {
    forall|i: int|
        0 <= i < sinks.len() ==> match #[trigger] sinks[i].target {
            TargetModel::Console => true,
            TargetModel::RotatingText { max_bytes, .. } => max_bytes == size,
            TargetModel::RotatingJson { max_bytes, .. } => max_bytes == size,
        }
}

/// When `log-file-size` is not a positive 64-bit number of bytes, every file
/// sink of the synthesized configuration rolls over at one million bytes.
pub proof fn lemma_malformed_size_uses_default(o: Options)
    requires
        !(decimal_value(o.log_file_size@) matches Some(v) && 0 < v && v <= u64::MAX),
    ensures
        o.spec_file_size() == 1000000,
        file_sinks_roll_at(default_plan(o).sinks, 1000000),
{
    let sinks = default_plan(o).sinks;
    assert forall|i: int| 0 <= i < sinks.len() implies match #[trigger] sinks[i].target {
        TargetModel::Console => true,
        TargetModel::RotatingText { max_bytes, .. } => max_bytes == 1000000,
        TargetModel::RotatingJson { max_bytes, .. } => max_bytes == 1000000,
    } by {
        let c = console_sinks(o).len();
        let j = json_sinks(o).len();
        if i < c {
            assert(sinks[i] == console_sinks(o)[i]);
        } else if i < c + j {
            assert(sinks[i] == json_sinks(o)[i - c]);
        } else {
            assert(sinks[i] == file_sinks(o)[i - c - j]);
        }
    }
}

/// When `log-json` names a path without the `.0.jsonlog` suffix, the
/// synthesized configuration has no structured sink and records a message
/// naming the path; the other sinks and the logger's threshold are exactly
/// those obtained when no structured path is given at all.
pub proof fn lemma_bad_json_path_omits_only_json(o: Options, path: String)
    requires
        o.log_json == Some(path),
        !ends_with(path@, json_suffix()),
    ensures
        forall|i: int|
            0 <= i < default_plan(o).sinks.len() ==> !(#[trigger] default_plan(o).sinks[i].target is RotatingJson),
        default_messages(o).contains(bad_json_path_message(path@)),
        default_plan(o) == default_plan(Options { log_json: None, ..o }),
{
    let o2 = Options { log_json: None, ..o };
    assert(json_sinks(o) == Seq::<SinkModel>::empty());
    assert(console_sinks(o) == console_sinks(o2));
    assert(file_sinks(o) == file_sinks(o2));
    assert(default_plan(o).sinks == default_plan(o2).sinks);
    assert(default_messages(o)[0] == bad_json_path_message(path@));
    let sinks = default_plan(o).sinks;
    assert forall|i: int| 0 <= i < sinks.len() implies !(#[trigger] sinks[i].target is RotatingJson) by {
        let c = console_sinks(o).len();
        if i < c {
            assert(sinks[i] == console_sinks(o)[i]);
        } else {
            assert(sinks[i] == file_sinks(o)[i - c]);
        }
    }
}

/// With `no-stderr` set, the synthesized configuration has no console sink,
/// whatever the other options say.
pub proof fn lemma_no_stderr_no_console(o: Options)
    requires
        o.no_stderr,
    ensures
        forall|i: int|
            0 <= i < default_plan(o).sinks.len() ==> !(#[trigger] default_plan(o).sinks[i].target is Console),
{
    let sinks = default_plan(o).sinks;
    assert forall|i: int| 0 <= i < sinks.len() implies !(#[trigger] sinks[i].target is Console) by {
        let j = json_sinks(o).len();
        assert(console_sinks(o).len() == 0);
        if i < j {
            assert(sinks[i] == json_sinks(o)[i]);
        } else {
            assert(sinks[i] == file_sinks(o)[i - j]);
        }
    }
}

/// Every structured sink of a synthesized configuration has a rollover
/// pattern ending in `.{}.jsonlog`, so `json_roller` gives it a roller.
pub proof fn lemma_synthesized_json_sinks_roll(o: Options)
    ensures
        forall|i: int|
            0 <= i < default_plan(o).sinks.len() ==> (#[trigger] default_plan(o).sinks[i].target matches TargetModel::RotatingJson {
                pattern,
                ..
            } ==> ends_with(pattern, ".{}.jsonlog"@)),
{
    let sinks = default_plan(o).sinks;
    assert forall|i: int| 0 <= i < sinks.len() implies (#[trigger] sinks[i].target matches TargetModel::RotatingJson {
        pattern,
        ..
    } ==> ends_with(pattern, ".{}.jsonlog"@)) by {
        let c = console_sinks(o).len();
        let j = json_sinks(o).len();
        if i < c {
            assert(sinks[i] == console_sinks(o)[i]);
        } else if i < c + j {
            assert(sinks[i] == json_sinks(o)[i - c]);
            let p = o.log_json.unwrap()@;
            let stem = p.subrange(0, p.len() - json_suffix().len());
            let pattern = stem + ".{}.jsonlog"@;
            assert(pattern.subrange(pattern.len() - ".{}.jsonlog"@.len(), pattern.len() as int)
                =~= ".{}.jsonlog"@);
        } else {
            assert(sinks[i] == file_sinks(o)[i - c - j]);
        }
    }
}

/// The sinks of a synthesized configuration are registered under distinct
/// names (`stderr`, `json`, `file`, each at most once), so the configuration
/// they form is accepted as it stands.
pub proof fn lemma_default_plan_distinct_names(o: Options)
    ensures
        distinct_names(default_plan(o).sinks),
{
    reveal_strlit("stderr");
    reveal_strlit("json");
    reveal_strlit("file");
    assert("stderr"@ != "json"@ && "stderr"@ != "file"@) by {
        assert("stderr"@.len() != "json"@.len());
        assert("stderr"@.len() != "file"@.len());
    }
    assert("json"@ != "file"@) by {
        assert("json"@[0] != "file"@[0]);
    }
    let sinks = default_plan(o).sinks;
    let c = console_sinks(o).len();
    let j = json_sinks(o).len();
    assert forall|a: int, b: int| 0 <= a < b < sinks.len() implies sink_name(
        #[trigger] sinks[a].target,
    ) != sink_name(#[trigger] sinks[b].target) by {
        assert(c <= 1 && j <= 1 && file_sinks(o).len() <= 1);
        if a < c {
            assert(sinks[a] == console_sinks(o)[a]);
        } else if a < c + j {
            assert(sinks[a] == json_sinks(o)[a - c]);
        }
        if b < c + j {
            assert(sinks[b] == json_sinks(o)[b - c]);
        } else {
            assert(sinks[b] == file_sinks(o)[b - c - j]);
        }
    }
}

} // verus!
