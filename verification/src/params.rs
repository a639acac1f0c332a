//! The parameter set of one request.
//!
//! The engine keeps one table of parameters for the whole process. A request states
//! some of them and leaves the others open; before synthesis every parameter of the
//! table is written, a stated one with its value and an open one with the engine's
//! default, so that nothing of an earlier request stays behind.

use vstd::prelude::*;

verus! {

/// The engine parameters that a request can state.
#[derive(Debug, PartialEq, Eq, Clone, Copy, Structural)]
pub enum Parameter {
    Rate,
    Volume,
    Pitch,
    Range,
    Punctuation,
    Capitals,
    WordGap,
}

/// One value for each parameter.
#[derive(Debug, PartialEq, Eq, Clone, Copy, Structural)]
pub struct ParameterValues {
    pub rate: i32,
    pub volume: i32,
    pub pitch: i32,
    pub range: i32,
    pub punctuation: i32,
    pub capitals: i32,
    pub word_gap: i32,
}

impl ParameterValues {
    /// The value of one parameter.
    pub open spec fn value(self, parameter: Parameter) -> i32 {
        match parameter {
            Parameter::Rate => self.rate,
            Parameter::Volume => self.volume,
            Parameter::Pitch => self.pitch,
            Parameter::Range => self.range,
            Parameter::Punctuation => self.punctuation,
            Parameter::Capitals => self.capitals,
            Parameter::WordGap => self.word_gap,
        }
    }
}

/// What a request asks of the engine. A field that is `None` asks for the engine's
/// default.
#[derive(Debug, Clone, Copy)]
pub struct SpeakerParams {
    pub rate: Option<i32>,
    pub volume: Option<i32>,
    pub pitch: Option<i32>,
    pub range: Option<i32>,
    pub punctuation: Option<i32>,
    pub capitals: Option<i32>,
    pub word_gap: Option<i32>,
    /// Whether the text is marked up. This is no engine parameter: it goes with the
    /// text into the synthesis call.
    pub is_ssml: bool,
}

/// The value to write for one parameter.
pub open spec fn resolved(stated: Option<i32>, default: i32) -> i32 {
    match stated {
        Some(value) => value,
        None => default,
    }
}

/// The order in which the parameters are written.
pub open spec fn write_order() -> Seq<Parameter> {
    seq![
        Parameter::Rate,
        Parameter::Volume,
        Parameter::Pitch,
        Parameter::Range,
        Parameter::Punctuation,
        Parameter::Capitals,
        Parameter::WordGap,
    ]
}

impl SpeakerParams {
    /// What the request states of one parameter.
    pub open spec fn stated(self, parameter: Parameter) -> Option<i32> {
        match parameter {
            Parameter::Rate => self.rate,
            Parameter::Volume => self.volume,
            Parameter::Pitch => self.pitch,
            Parameter::Range => self.range,
            Parameter::Punctuation => self.punctuation,
            Parameter::Capitals => self.capitals,
            Parameter::WordGap => self.word_gap,
        }
    }

    /// The table that the engine holds once this request has been applied.
    pub open spec fn applied(self, defaults: ParameterValues) -> ParameterValues {
        ParameterValues {
            rate: resolved(self.rate, defaults.rate),
            volume: resolved(self.volume, defaults.volume),
            pitch: resolved(self.pitch, defaults.pitch),
            range: resolved(self.range, defaults.range),
            punctuation: resolved(self.punctuation, defaults.punctuation),
            capitals: resolved(self.capitals, defaults.capitals),
            word_gap: resolved(self.word_gap, defaults.word_gap),
        }
    }

    /// The writes that apply this request, in the order in which they are made.
    pub open spec fn writes(self, defaults: ParameterValues) -> Seq<(Parameter, i32)> {
        write_order().map_values(
            |parameter: Parameter| (parameter, self.applied(defaults).value(parameter)),
        )
    }

    /// The request that states nothing, for plain text.
    pub open spec fn unset() -> SpeakerParams {
        SpeakerParams {
            rate: None,
            volume: None,
            pitch: None,
            range: None,
            punctuation: None,
            capitals: None,
            word_gap: None,
            is_ssml: false,
        }
    }

    /// A request that states nothing, for plain text.
    pub fn new() -> (params: SpeakerParams)
        ensures
            params == SpeakerParams::unset(),
    {
        SpeakerParams {
            rate: None,
            volume: None,
            pitch: None,
            range: None,
            punctuation: None,
            capitals: None,
            word_gap: None,
            is_ssml: false,
        }
    }

    /// The writes to make on the engine before synthesis, given the engine's default
    /// for each parameter: one write for every parameter, in a fixed order.
    pub fn apply_params(&self, defaults: &ParameterValues) -> (writes: Vec<(Parameter, i32)>)
        ensures
            writes@ == self.writes(*defaults),
    {
        let mut writes: Vec<(Parameter, i32)> = Vec::new();
        writes.push((Parameter::Rate, apply_param(self.rate, defaults.rate)));
        writes.push((Parameter::Volume, apply_param(self.volume, defaults.volume)));
        writes.push((Parameter::Pitch, apply_param(self.pitch, defaults.pitch)));
        writes.push((Parameter::Range, apply_param(self.range, defaults.range)));
        writes.push((Parameter::Punctuation, apply_param(self.punctuation, defaults.punctuation)));
        writes.push((Parameter::Capitals, apply_param(self.capitals, defaults.capitals)));
        writes.push((Parameter::WordGap, apply_param(self.word_gap, defaults.word_gap)));
        assert(writes@ =~= self.writes(*defaults));
        writes
    }
}

/// The value to write for one parameter: the stated one, or the engine's default.
pub fn apply_param(stated: Option<i32>, default: i32) -> (value: i32)
    ensures
        value == resolved(stated, default),
{
    match stated {
        Some(value) => value,
        None => default,
    }
}

/// The engine's table after a list of writes, each overwriting one parameter.
pub open spec fn table_after(
    table: ParameterValues,
    writes: Seq<(Parameter, i32)>,
) -> ParameterValues
    decreases writes.len(),
{
    if writes.len() == 0 {
        table
    } else {
        let (parameter, value) = writes.last();
        let before = table_after(table, writes.drop_last());
        match parameter {
            Parameter::Rate => ParameterValues { rate: value, ..before },
            Parameter::Volume => ParameterValues { volume: value, ..before },
            Parameter::Pitch => ParameterValues { pitch: value, ..before },
            Parameter::Range => ParameterValues { range: value, ..before },
            Parameter::Punctuation => ParameterValues { punctuation: value, ..before },
            Parameter::Capitals => ParameterValues { capitals: value, ..before },
            Parameter::WordGap => ParameterValues { word_gap: value, ..before },
        }
    }
}

/// Applying a request leaves the engine's table at the request's values and the
/// defaults, whatever the table held before: no request sees what an earlier one
/// wrote.
pub proof fn lemma_apply_forgets_earlier_requests(
    table: ParameterValues,
    params: SpeakerParams,
    defaults: ParameterValues,
)
    ensures
        table_after(table, params.writes(defaults)) == params.applied(defaults),
{
    let writes = params.writes(defaults);
    reveal_with_fuel(table_after, 8);
    assert(writes.len() == 7);
    let w6 = writes.drop_last();
    let w5 = w6.drop_last();
    let w4 = w5.drop_last();
    let w3 = w4.drop_last();
    let w2 = w3.drop_last();
    let w1 = w2.drop_last();
    let w0 = w1.drop_last();
    assert(w0.len() == 0);
    assert(w1.last() == writes[0]);
    assert(w2.last() == writes[1]);
    assert(w3.last() == writes[2]);
    assert(w4.last() == writes[3]);
    assert(w5.last() == writes[4]);
    assert(w6.last() == writes[5]);
    assert(writes.last() == writes[6]);
}

/// Two requests in a row: the engine ends with what the second asks for, as if the
/// first had never been made.
pub proof fn lemma_requests_do_not_leak(
    table: ParameterValues,
    first: SpeakerParams,
    second: SpeakerParams,
    defaults: ParameterValues,
)
    ensures
        table_after(table_after(table, first.writes(defaults)), second.writes(defaults))
            == table_after(table, second.writes(defaults)),
        forall|parameter: Parameter|
            second.stated(parameter) is None ==> #[trigger] table_after(
                table_after(table, first.writes(defaults)),
                second.writes(defaults),
            ).value(parameter) == defaults.value(parameter),
{
    lemma_apply_forgets_earlier_requests(table, second, defaults);
    lemma_apply_forgets_earlier_requests(
        table_after(table, first.writes(defaults)),
        second,
        defaults,
    );
}

} // verus!
