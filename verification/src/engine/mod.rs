//! A session with one engine.
//!
//! The session does no reading or writing of its own.  It is told what the
//! engine sent and says what to send and what to make of it: first the
//! handshake, remark by remark, then options and analyses.

pub mod analysis;
pub mod error;
pub mod options;
pub mod uci_convert;
pub mod value_text;

pub use crate::engine::analysis::{
    AnalysisLimit, AnalysisSearchLimit, AnalysisTimeLimit, EngineAnalysis, EngineAnalysisEvent,
};
pub use crate::engine::error::{EngineAnalysisError, EngineError, SetOptionError};
pub use crate::engine::options::{OptionTable, UciOptionField, UciOptionValue};

use vstd::prelude::*;
use vstd::string::*;
use crate::engine::options::{find_string, options_valid, texts};
use crate::engine::uci_convert::{
    analysis_limit_to_go_message, game_to_position_message, is_position_message, spec_go_params,
};
use crate::engine::value_text::{bool_text, decimal, spec_value_text};
use crate::game::ChessGame;
use crate::search::{first_index_of, lemma_first_index_of_is_first};
use crate::uci::{UciCommand, UciFormatOptions, UciIdInfo, UciOptionInfo, UciRemark};

verus! {

/// A session whose handshake is done: what the engine said of itself, and
/// its options with their values.
#[derive(Debug, Clone, PartialEq, Eq)]
pub struct Engine {
    engine_name: String,
    engine_author: String,
    options: OptionTable,
}

/// A session as contracts see it.
pub struct EngineView {
    pub engine_name: Seq<char>,
    pub engine_author: Seq<char>,
    pub options: Map<Seq<char>, UciOptionField>,
}

/// A session in its handshake: what the engine has said so far.
#[derive(Debug, Clone, PartialEq, Eq)]
pub struct EngineInit {
    engine_name: Option<String>,
    engine_author: Option<String>,
    options: OptionTable,
    warnings: Vec<EngineError>,
}

/// A handshake as contracts see it.
pub struct EngineInitView {
    pub engine_name: Option<Seq<char>>,
    pub engine_author: Option<Seq<char>>,
    pub options: Map<Seq<char>, UciOptionField>,
    pub warnings: Seq<EngineError>,
}

/// Where a handshake stands after a remark.
#[derive(Debug, Clone, PartialEq, Eq)]
pub enum InitStep {
    /// The handshake goes on: read the next remark.
    More(EngineInit),
    /// The engine is ready.  The errors are what was odd but not fatal.
    Ready(Engine, Vec<EngineError>),
    /// The handshake failed.
    Failed(EngineError),
}

/// A step of a handshake as contracts see it.
pub enum InitStepView {
    More(EngineInitView),
    Ready(EngineView, Seq<EngineError>),
    Failed(EngineError),
}

impl View for Engine {
    type V = EngineView;

    closed spec fn view(&self) -> EngineView {
        EngineView {
            engine_name: self.engine_name@,
            engine_author: self.engine_author@,
            options: self.options@,
        }
    }
}

pub open spec fn spec_text_of(s: Option<String>) -> Option<Seq<char>> {
    match s {
        Some(s) => Some(s@),
        None => None,
    }
}

impl View for EngineInit {
    type V = EngineInitView;

    closed spec fn view(&self) -> EngineInitView {
        EngineInitView {
            engine_name: spec_text_of(self.engine_name),
            engine_author: spec_text_of(self.engine_author),
            options: self.options@,
            warnings: self.warnings@,
        }
    }
}

impl View for InitStep {
    type V = InitStepView;

    open spec fn view(&self) -> InitStepView {
        match *self {
            InitStep::More(state) => InitStepView::More(state@),
            InitStep::Ready(engine, warnings) => InitStepView::Ready(engine@, warnings@),
            InitStep::Failed(e) => InitStepView::Failed(e),
        }
    }
}

/// The name of the option that switches an engine to Chess960.
pub open spec fn chess960_option() -> Seq<char> {
    "UCI_Chess960"@
}

/// The options after the engine has described one more.  A spin must have
/// its default within its bounds, and a combo its default among its labels;
/// a button is noted and not kept.
pub open spec fn spec_register_option(
    options: Map<Seq<char>, UciOptionField>,
    name: Seq<char>,
    info: UciOptionInfo,
) -> Result<Map<Seq<char>, UciOptionField>, EngineError> {
    match info {
        UciOptionInfo::Check { default } => Ok(
            options.insert(name, UciOptionField::Check { value: default }),
        ),
        UciOptionInfo::Spin { default, min, max } => if min > max || default < min || default
            > max {
            Err(EngineError::InvalidOption)
        } else {
            Ok(options.insert(name, UciOptionField::Spin { value: default, min, max }))
        },
        UciOptionInfo::Combo { default, labels } => {
            let at = first_index_of(texts(labels@), default@);
            if at >= labels@.len() {
                Err(EngineError::InvalidOption)
            } else {
                Ok(options.insert(name, UciOptionField::Combo { value: at as usize, labels }))
            }
        },
        UciOptionInfo::Button => Ok(options),
        UciOptionInfo::String { default } => Ok(
            options.insert(name, UciOptionField::String { value: default }),
        ),
    }
}

pub open spec fn spec_text_or_empty(text: Option<Seq<char>>) -> Seq<char> {
    match text {
        Some(text) => text,
        None => Seq::<char>::empty(),
    }
}

/// The warnings of a handshake that ends: those gathered, then one for a
/// name never given, then one for an author never given.
pub open spec fn spec_final_warnings(state: EngineInitView) -> Seq<EngineError> {
    let named = if state.engine_name is None {
        state.warnings.push(EngineError::MissingName)
    } else {
        state.warnings
    };
    if state.engine_author is None {
        named.push(EngineError::MissingAuthor)
    } else {
        named
    }
}

/// The session that a handshake ends in.
pub open spec fn spec_ready_engine(state: EngineInitView) -> EngineView {
    EngineView {
        engine_name: spec_text_or_empty(state.engine_name),
        engine_author: spec_text_or_empty(state.engine_author),
        options: state.options,
    }
}

/// A handshake with one more warning.
pub open spec fn spec_warned(state: EngineInitView, remark: UciRemark) -> EngineInitView {
    EngineInitView {
        engine_name: state.engine_name,
        engine_author: state.engine_author,
        options: state.options,
        warnings: state.warnings.push(EngineError::UnexpectedRemark(remark)),
    }
}

/// One step of the handshake: what a remark, or the end of the engine's
/// output (`None`), does to it.
pub open spec fn spec_init_step(state: EngineInitView, event: Option<UciRemark>) -> InitStepView {
    match event {
        None => InitStepView::Failed(EngineError::UnexpectedTermination),
        Some(UciRemark::UciOk) => InitStepView::Ready(
            spec_ready_engine(state),
            spec_final_warnings(state),
        ),
        Some(UciRemark::Id(UciIdInfo::Name(name))) => if state.engine_name is None {
            InitStepView::More(
                EngineInitView {
                    engine_name: Some(name@),
                    engine_author: state.engine_author,
                    options: state.options,
                    warnings: state.warnings,
                },
            )
        } else {
            InitStepView::More(spec_warned(state, UciRemark::Id(UciIdInfo::Name(name))))
        },
        Some(UciRemark::Id(UciIdInfo::Author(author))) => if state.engine_author is None {
            InitStepView::More(
                EngineInitView {
                    engine_name: state.engine_name,
                    engine_author: Some(author@),
                    options: state.options,
                    warnings: state.warnings,
                },
            )
        } else {
            InitStepView::More(spec_warned(state, UciRemark::Id(UciIdInfo::Author(author))))
        },
        Some(UciRemark::Option { name, info }) => match spec_register_option(
            state.options,
            name@,
            info,
        ) {
            Ok(options) => InitStepView::More(
                EngineInitView {
                    engine_name: state.engine_name,
                    engine_author: state.engine_author,
                    options,
                    warnings: state.warnings,
                },
            ),
            Err(e) => InitStepView::Failed(e),
        },
        Some(other) => InitStepView::More(spec_warned(state, other)),
    }
}

/// What setting an option to a value makes of the option, or why it cannot
/// be done: the kinds differ, or the value is out of the option's range.
pub open spec fn spec_checked_field(field: UciOptionField, value: UciOptionValue) -> Result<
    UciOptionField,
    SetOptionError,
> {
    match (field, value) {
        (UciOptionField::Check { value: _ }, UciOptionValue::Check(new)) => Ok(
            UciOptionField::Check { value: new },
        ),
        (UciOptionField::Spin { value: _, min, max }, UciOptionValue::Spin(new)) => if new < min
            || new > max {
            Err(SetOptionError::OutOfRange)
        } else {
            Ok(UciOptionField::Spin { value: new, min, max })
        },
        (UciOptionField::Combo { value: _, labels }, UciOptionValue::Combo(new)) => if new
            >= labels@.len() {
            Err(SetOptionError::OutOfRange)
        } else {
            Ok(UciOptionField::Combo { value: new, labels })
        },
        (UciOptionField::String { value: _ }, UciOptionValue::String(new)) => Ok(
            UciOptionField::String { value: new },
        ),
        _ => Err(SetOptionError::TypeMismatch),
    }
}

/// The options after one of them is set, or why it cannot be set.
pub open spec fn spec_set_option(
    options: Map<Seq<char>, UciOptionField>,
    name: Seq<char>,
    value: UciOptionValue,
) -> Result<Map<Seq<char>, UciOptionField>, SetOptionError> {
    if !options.dom().contains(name) {
        Err(SetOptionError::NoSuchOption)
    } else {
        match spec_checked_field(options[name], value) {
            Ok(field) => Ok(options.insert(name, field)),
            Err(e) => Err(e),
        }
    }
}

/// Registering an option keeps a table of allowed values one.
pub proof fn law_register_keeps_valid(
    options: Map<Seq<char>, UciOptionField>,
    name: Seq<char>,
    info: UciOptionInfo,
)
    requires
        options_valid(options),
    ensures
        spec_register_option(options, name, info) matches Ok(after) ==> options_valid(after),
{
    if let UciOptionInfo::Combo { default, labels } = info {
        lemma_first_index_of_is_first(texts(labels@), default@);
    }
}

/// A step of the handshake keeps a table of allowed values one, and so the
/// session that the handshake ends in has one.
pub proof fn law_init_keeps_valid(state: EngineInitView, event: Option<UciRemark>)
    requires
        state.wf(),
    ensures
        spec_init_step(state, event) matches InitStepView::More(after) ==> after.wf(),
        spec_init_step(state, event) matches InitStepView::Ready(engine, _) ==> engine.wf(),
{
    if let Some(UciRemark::Option { name, info }) = event {
        law_register_keeps_valid(state.options, name@, info);
    }
}

/// Setting an option keeps a table of allowed values one: a value out of
/// the option's range is refused.
pub proof fn law_set_option_keeps_valid(
    options: Map<Seq<char>, UciOptionField>,
    name: Seq<char>,
    value: UciOptionValue,
)
    requires
        options_valid(options),
    ensures
        spec_set_option(options, name, value) matches Ok(after) ==> options_valid(after),
{
}

impl EngineInitView {
    /// Every option registered so far has a value it allows.
    pub open spec fn wf(self) -> bool {
        options_valid(self.options)
    }
}

impl EngineView {
    /// Every option has a value it allows.
    pub open spec fn wf(self) -> bool {
        options_valid(self.options)
    }

    /// Whether the engine offers Chess960: it has a check option of that
    /// name.
    pub open spec fn chess960_supported(self) -> bool {
        self.options.dom().contains(chess960_option()) && self.options[chess960_option()] is Check
    }

    /// Whether the engine plays Chess960: that option is switched on.
    pub open spec fn chess960_enabled(self) -> bool {
        self.options.dom().contains(chess960_option()) && self.options[chess960_option()]
            == (UciOptionField::Check { value: true })
    }
}

fn check_field(field: &UciOptionField, value: &UciOptionValue) -> (r: Result<(), SetOptionError>)
    ensures
        match spec_checked_field(*field, *value) {
            Ok(_) => r is Ok,
            Err(e) => r == Err::<(), SetOptionError>(e),
        },
{
    match field {
        UciOptionField::Check { value: _ } => match value {
            UciOptionValue::Check(_) => Ok(()),
            _ => Err(SetOptionError::TypeMismatch),
        },
        UciOptionField::Spin { value: _, min, max } => match value {
            UciOptionValue::Spin(new) => if *new < *min || *new > *max {
                Err(SetOptionError::OutOfRange)
            } else {
                Ok(())
            },
            _ => Err(SetOptionError::TypeMismatch),
        },
        UciOptionField::Combo { value: _, labels } => match value {
            UciOptionValue::Combo(new) => if *new >= labels.len() {
                Err(SetOptionError::OutOfRange)
            } else {
                Ok(())
            },
            _ => Err(SetOptionError::TypeMismatch),
        },
        UciOptionField::String { value: _ } => match value {
            UciOptionValue::String(_) => Ok(()),
            _ => Err(SetOptionError::TypeMismatch),
        },
    }
}

fn text_or_empty(text: Option<String>) -> (r: String)
    ensures
        r@ == spec_text_or_empty(spec_text_of(text)),
{
    match text {
        Some(text) => text,
        None => String::new(),
    }
}

impl EngineInitView {
    /// Whether the engine has described a Chess960 option that is switched
    /// on.
    pub open spec fn chess960_enabled(self) -> bool {
        self.options.dom().contains(chess960_option()) && self.options[chess960_option()]
            == (UciOptionField::Check { value: true })
    }
}

impl EngineInit {
    /// How to read and write messages at this point of the handshake: as in
    /// Chess960 once the engine has described that option as switched on.
    pub fn uci_format_opts(&self) -> (r: UciFormatOptions)
        ensures
            r == (UciFormatOptions { chess960: self@.chess960_enabled(), wdl: false }),
    {
        let chess960 = match self.options.get("UCI_Chess960") {
            Some(UciOptionField::Check { value }) => *value,
            _ => false,
        };
        UciFormatOptions { chess960, wdl: false }
    }

    fn warned(self, remark: UciRemark) -> (r: EngineInit)
        ensures
            r@ == spec_warned(self@, remark),
    {
        let EngineInit { engine_name, engine_author, options, mut warnings } = self;
        warnings.push(EngineError::UnexpectedRemark(remark));
        EngineInit { engine_name, engine_author, options, warnings }
    }

    fn register(self, name: String, info: UciOptionInfo) -> (r: InitStep)
        ensures
            r@ == spec_init_step(self@, Some(UciRemark::Option { name, info })),
    {
        let EngineInit { engine_name, engine_author, mut options, warnings } = self;
        match info {
            UciOptionInfo::Check { default } => {
                options.insert(name, UciOptionField::Check { value: default });
            },
            UciOptionInfo::Spin { default, min, max } => {
                if min > max || default < min || default > max {
                    return InitStep::Failed(EngineError::InvalidOption);
                }
                options.insert(name, UciOptionField::Spin { value: default, min, max });
            },
            UciOptionInfo::Combo { default, labels } => {
                let value = find_string(&labels, &default);
                if value >= labels.len() {
                    return InitStep::Failed(EngineError::InvalidOption);
                }
                options.insert(name, UciOptionField::Combo { value, labels });
            },
            UciOptionInfo::Button => {},
            UciOptionInfo::String { default } => {
                options.insert(name, UciOptionField::String { value: default });
            },
        }
        InitStep::More(EngineInit { engine_name, engine_author, options, warnings })
    }

    fn finish(self) -> (r: InitStep)
        ensures
            r@ == spec_init_step(self@, Some(UciRemark::UciOk)),
    {
        let EngineInit { engine_name, engine_author, options, mut warnings } = self;
        if engine_name.is_none() {
            warnings.push(EngineError::MissingName);
        }
        if engine_author.is_none() {
            warnings.push(EngineError::MissingAuthor);
        }
        let engine = Engine {
            engine_name: text_or_empty(engine_name),
            engine_author: text_or_empty(engine_author),
            options,
        };
        InitStep::Ready(engine, warnings)
    }
}

impl Engine {
    /// Begins a session: gives the handshake, with nothing heard yet, and
    /// the command to send to the engine first.
    pub fn new() -> (r: (EngineInit, UciCommand))
        ensures
            r.0@ == (EngineInitView {
                engine_name: None,
                engine_author: None,
                options: Map::empty(),
                warnings: Seq::empty(),
            }),
            r.0@.wf(),
            r.1 == UciCommand::Uci,
    {
        let state = EngineInit {
            engine_name: None,
            engine_author: None,
            options: OptionTable::new(),
            warnings: Vec::new(),
        };
        (state, UciCommand::Uci)
    }

    /// Takes the handshake one remark further.  `event` is what the engine
    /// sent, or `None` where it closed its output.
    ///
    /// The first name and the first author are kept, and later ones warned
    /// of.  An option is checked and registered under its name.  `uciok`
    /// ends the handshake; what else the engine sends is warned of.  A
    /// closed output fails the handshake, and so does an option that cannot
    /// be.
    pub fn init(state: EngineInit, event: Option<UciRemark>) -> (r: InitStep)
        ensures
            r@ == spec_init_step(state@, event),
            state@.wf() ==> match r {
                InitStep::More(next) => next@.wf(),
                InitStep::Ready(engine, _) => engine@.wf(),
                InitStep::Failed(_) => true,
            },
    {
        proof {
            if state@.wf() {
                law_init_keeps_valid(state@, event);
            }
        }
        match event {
            None => InitStep::Failed(EngineError::UnexpectedTermination),
            Some(UciRemark::UciOk) => state.finish(),
            Some(UciRemark::Id(UciIdInfo::Name(name))) => {
                if state.engine_name.is_none() {
                    let EngineInit { engine_name, engine_author, options, warnings } = state;
                    InitStep::More(
                        EngineInit { engine_name: Some(name), engine_author, options, warnings },
                    )
                } else {
                    InitStep::More(state.warned(UciRemark::Id(UciIdInfo::Name(name))))
                }
            },
            Some(UciRemark::Id(UciIdInfo::Author(author))) => {
                if state.engine_author.is_none() {
                    let EngineInit { engine_name, engine_author, options, warnings } = state;
                    InitStep::More(
                        EngineInit { engine_name, engine_author: Some(author), options, warnings },
                    )
                } else {
                    InitStep::More(state.warned(UciRemark::Id(UciIdInfo::Author(author))))
                }
            },
            Some(UciRemark::Option { name, info }) => state.register(name, info),
            Some(other) => InitStep::More(state.warned(other)),
        }
    }

    /// What the engine calls itself; empty where it never said.
    pub fn engine_name(&self) -> (r: &str)
        ensures
            r@ == self@.engine_name,
    {
        self.engine_name.as_str()
    }

    /// Who the engine says wrote it; empty where it never said.
    pub fn engine_author(&self) -> (r: &str)
        ensures
            r@ == self@.engine_author,
    {
        self.engine_author.as_str()
    }

    /// The engine's options.
    pub fn options(&self) -> (r: &OptionTable)
        ensures
            r@ == self@.options,
    {
        &self.options
    }

    /// Whether the engine offers Chess960: it has a check option of that
    /// name.
    pub fn chess960_supported(&self) -> (r: bool)
        ensures
            r == self@.chess960_supported(),
    {
        match self.options.get("UCI_Chess960") {
            Some(UciOptionField::Check { value: _ }) => true,
            _ => false,
        }
    }

    /// Whether the engine plays Chess960: that option is switched on.
    pub fn chess960_enabled(&self) -> (r: bool)
        ensures
            r == self@.chess960_enabled(),
    {
        match self.options.get("UCI_Chess960") {
            Some(UciOptionField::Check { value }) => *value,
            _ => false,
        }
    }

    /// How to write commands for the engine as it is set now.
    pub fn uci_format_opts(&self) -> (r: UciFormatOptions)
        ensures
            r == (UciFormatOptions { chess960: self@.chess960_enabled(), wdl: false }),
    {
        UciFormatOptions { chess960: self.chess960_enabled(), wdl: false }
    }

    /// The command that sets an option, where the option exists and takes
    /// the value; the session itself is not changed.  Send the command, then
    /// record the value with [`Engine::set_option`].
    pub fn set_option_command(&self, name: &String, value: &UciOptionValue) -> (r: Result<
        UciCommand,
        SetOptionError,
    >)
        ensures
            match spec_set_option(self@.options, name@, *value) {
                Ok(_) => r matches Ok(UciCommand::SetOption { name: sent_name, value: Some(text) })
                    && sent_name@ == name@ && text@ == spec_value_text(
                    self@.options[name@],
                    *value,
                ),
                Err(e) => r == Err::<UciCommand, SetOptionError>(e),
            },
    {
        let field = match self.options.get(name.as_str()) {
            Some(field) => field,
            None => {
                return Err(SetOptionError::NoSuchOption);
            },
        };
        match check_field(field, value) {
            Ok(()) => {},
            Err(e) => {
                return Err(e);
            },
        }
        let text = match value {
            UciOptionValue::Check(new) => bool_text(*new),
            UciOptionValue::Spin(new) => decimal(*new),
            UciOptionValue::Combo(new) => match field {
                UciOptionField::Combo { value: _, labels } => labels[*new].clone(),
                _ => String::new(),
            },
            UciOptionValue::String(new) => new.clone(),
        };
        Ok(UciCommand::SetOption { name: name.clone(), value: Some(text) })
    }

    /// Records a value for an option, where the option exists and takes the
    /// value; otherwise the session is left as it was.
    pub fn set_option(&mut self, name: String, value: UciOptionValue) -> (r: Result<
        (),
        SetOptionError,
    >)
        ensures
            match spec_set_option(old(self)@.options, name@, value) {
                Ok(options) => r is Ok && final(self)@ == (EngineView {
                    engine_name: old(self)@.engine_name,
                    engine_author: old(self)@.engine_author,
                    options,
                }),
                Err(e) => r == Err::<(), SetOptionError>(e) && *final(self) == *old(self),
            },
            old(self)@.wf() ==> final(self)@.wf(),
    {
        proof {
            if self@.wf() {
                law_set_option_keeps_valid(self@.options, name@, value);
            }
        }
        match self.options.get(name.as_str()) {
            Some(field) => {
                match check_field(field, &value) {
                    Ok(()) => {},
                    Err(e) => {
                        return Err(e);
                    },
                }
            },
            None => {
                return Err(SetOptionError::NoSuchOption);
            },
        }
        let field = self.options.field_mut(&name);
        match value {
            UciOptionValue::Check(new) => match field {
                UciOptionField::Check { value } => {
                    *value = new;
                },
                _ => {},
            },
            UciOptionValue::Spin(new) => match field {
                UciOptionField::Spin { value, min: _, max: _ } => {
                    *value = new;
                },
                _ => {},
            },
            UciOptionValue::Combo(new) => match field {
                UciOptionField::Combo { value, labels: _ } => {
                    *value = new;
                },
                _ => {},
            },
            UciOptionValue::String(new) => match field {
                UciOptionField::String { value } => {
                    *value = new;
                },
                _ => {},
            },
        }
        Ok(())
    }

    /// Begins an analysis of a game's current position: gives the analysis
    /// and the two commands to send, `position` and then `go`.  It is
    /// refused, before anything is sent, where the game can only be played
    /// as Chess960 and the engine has not switched that on.
    pub fn analyze(&self, game: &ChessGame, limit: AnalysisLimit) -> (r: Result<
        (EngineAnalysis, UciCommand, UciCommand),
        EngineAnalysisError,
    >)
        ensures
            if game@.needs_chess960() && !self@.chess960_enabled() {
                r == Err::<(EngineAnalysis, UciCommand, UciCommand), EngineAnalysisError>(
                    EngineAnalysisError::Requires960,
                )
            } else {
                &&& r matches Ok((analysis, position, go))
                &&& analysis.spec_board() == game@.board()
                &&& analysis.spec_chess960() == self@.chess960_enabled()
                &&& is_position_message(position, game@, self@.chess960_enabled())
                &&& go == UciCommand::Go(spec_go_params(limit))
            },
    {
        let chess960 = self.chess960_enabled();
        if game.needs_chess960() && !chess960 {
            return Err(EngineAnalysisError::Requires960);
        }
        let analysis = EngineAnalysis::new(game.board().clone(), chess960);
        let position = game_to_position_message(game, chess960);
        let go = analysis_limit_to_go_message(limit);
        Ok((analysis, position, go))
    }
}

} // verus!
