//! The RULES response.
//!
//! The response starts with the number of rules. Then come the rules, a name
//! and a value each. Old servers cut the response to the size of one packet,
//! so that fewer rules than announced may be there, and the last of them may
//! be cut in two. What is left behind the last complete rule is kept as text.
//! It is an error only where all the announced rules were read, so that
//! nothing should be left.

use crate::error::{DecodeError, ErrorKind};
use crate::parser_util::{
    advance, c_string, le_i16, lossy_string, offset_of, same_result, same_step, spec_c_string,
    spec_le_i16, utf8_lossy, value_of, within,
};
use vstd::prelude::*;
use vstd::slice::slice_subrange;

verus! {

/// One rule.
#[derive(Clone, Debug, PartialEq, Eq)]
pub struct RuleData {
    /// The name of the rule.
    pub name: String,
    /// The value of the rule.
    pub value: String,
}

/// What a `RuleData` holds, as mathematical values.
pub struct RuleDataView {
    pub name: Seq<char>,
    pub value: Seq<char>,
}

impl View for RuleData {
    type V = RuleDataView;

    open spec fn view(&self) -> RuleDataView {
        RuleDataView { name: self.name@, value: self.value@ }
    }
}

impl DeepView for RuleData {
    type V = RuleDataView;

    open spec fn deep_view(&self) -> RuleDataView {
        self@
    }
}

/// The decoded RULES response.
#[derive(Clone, Debug, PartialEq, Eq)]
pub struct RulesResponse {
    /// The number of rules that the server announced.
    pub num_rules: i16,
    /// The rules that were read, in the order sent.
    pub rules: Vec<RuleData>,
    /// What was left behind the last rule read, as text; empty unless the
    /// response was cut short.
    pub remaining_data: String,
}

/// What a `RulesResponse` holds, as mathematical values.
pub struct RulesResponseView {
    pub num_rules: i16,
    pub rules: Seq<RuleDataView>,
    pub remaining_data: Seq<char>,
}

impl View for RulesResponse {
    type V = RulesResponseView;

    open spec fn view(&self) -> RulesResponseView {
        RulesResponseView {
            num_rules: self.num_rules,
            rules: self.rules.deep_view(),
            remaining_data: self.remaining_data@,
        }
    }
}

impl DeepView for RulesResponse {
    type V = RulesResponseView;

    open spec fn deep_view(&self) -> RulesResponseView {
        self@
    }
}

/// One rule at `pos`: name, value.
pub open spec fn spec_rule_data(s: Seq<u8>, pos: int) -> Result<(RuleDataView, usize), DecodeError> {
    let name = spec_c_string(s, pos);
    let p1 = advance(Ok(pos), name);
    let value = spec_c_string(s, offset_of(p1));
    let p2 = advance(p1, value);
    match p2 {
        Err(e) => Err(e),
        Ok(end) => Ok(
            (RuleDataView { name: value_of(name), value: value_of(value) }, (end - pos) as usize),
        ),
    }
}

/// The rules at `pos`, as many as can be read one after another but no more
/// than `max`, with the number of bytes they take up. A rule that cannot be
/// read ends the list; it is no error, and none of its bytes count as read.
pub open spec fn spec_many_rule_data(s: Seq<u8>, pos: int, max: nat) -> (Seq<RuleDataView>, int)
    decreases max,
{
    if max == 0 {
        (Seq::empty(), 0)
    } else {
        match spec_rule_data(s, pos) {
            Err(_) => (Seq::empty(), 0),
            Ok((rule, n)) => {
                let rest = spec_many_rule_data(s, pos + n, (max - 1) as nat);
                (seq![rule] + rest.0, n + rest.1)
            },
        }
    }
}

/// The most rules that are read for an announced number of `num_rules`: the
/// number itself, and for a negative number what it is as an unsigned
/// machine word, which no buffer reaches.
pub open spec fn spec_rule_limit(num_rules: i16) -> usize {
    num_rules as usize
}

/// What decoding the buffer `s` as a RULES response gives. The whole buffer
/// is always read, the part behind the rules as text. Where the number of
/// rules read, as a 16-bit number, is the number announced and text is left
/// all the same, the result is an error that points at the end of the buffer.
pub open spec fn spec_parse_rules(s: Seq<u8>) -> Result<RulesResponseView, DecodeError> {
    match spec_le_i16(s, 0) {
        Err(e) => Err(e),
        Ok((num_rules, n0)) => {
            let rules = spec_many_rule_data(s, n0 as int, spec_rule_limit(num_rules) as nat);
            let remaining_data = utf8_lossy(s.subrange(n0 + rules.1, s.len() as int));
            if rules.0.len() as i16 == num_rules && remaining_data.len() != 0 {
                Err(DecodeError { kind: ErrorKind::TrailingData, offset: s.len() as usize })
            } else {
                Ok(RulesResponseView { num_rules, rules: rules.0, remaining_data })
            }
        },
    }
}

fn rule_data(input: &[u8], offset: usize) -> (r: Result<(RuleData, usize), DecodeError>)
    ensures
        same_step(r, spec_rule_data(input@, offset as int)),
        r matches Ok((_, n)) ==> within(input@, offset, n),
{
    let (name, n0) = c_string(input, offset)?;
    let (value, n1) = c_string(input, offset + n0)?;
    Ok((RuleData { name, value }, n0 + n1))
}

fn many_rule_data(input: &[u8], offset: usize, rules: i16) -> (r: (Vec<RuleData>, usize))
    requires
        offset <= input@.len(),
    ensures
        r.0.deep_view() == spec_many_rule_data(
            input@,
            offset as int,
            spec_rule_limit(rules) as nat,
        ).0,
        r.1 == spec_many_rule_data(input@, offset as int, spec_rule_limit(rules) as nat).1,
        within(input@, offset, r.1),
{
    let limit = #[verifier::truncate] (rules as usize);
    let mut entries: Vec<RuleData> = Vec::new();
    let mut pos = offset;
    let mut left = limit;
    let ghost all = spec_many_rule_data(input@, offset as int, limit as nat);
    assert(entries.deep_view() =~= Seq::empty());
    while left > 0
        invariant
            offset <= pos <= input@.len(),
            all == spec_many_rule_data(input@, offset as int, limit as nat),
            all.0 == entries.deep_view() + spec_many_rule_data(input@, pos as int, left as nat).0,
            all.1 == (pos - offset) + spec_many_rule_data(input@, pos as int, left as nat).1,
        ensures
            offset <= pos <= input@.len(),
            all.0 == entries.deep_view(),
            all.1 == pos - offset,
        decreases left,
    {
        match rule_data(input, pos) {
            Err(_) => {
                assert(entries.deep_view() + Seq::<RuleDataView>::empty() =~= entries.deep_view());
                break ;
            },
            Ok((rule, n)) => {
                let ghost before = entries.deep_view();
                let ghost rest = spec_many_rule_data(input@, pos as int + n, (left - 1) as nat);
                entries.push(rule);
                assert(entries.deep_view() =~= before.push(rule@));
                assert(before + (seq![rule@] + rest.0) =~= before.push(rule@) + rest.0);
                pos += n;
                left -= 1;
            },
        }
    }
    assert(entries.deep_view() + Seq::<RuleDataView>::empty() =~= entries.deep_view());
    (entries, pos - offset)
}

/// Decodes a RULES response from `input`, the payload of the response
/// without the message tag.
pub fn parse_rules(input: &[u8]) -> (r: Result<RulesResponse, DecodeError>)
    ensures
        same_result(r, spec_parse_rules(input@)),
{
    let (num_rules, n0) = le_i16(input, 0)?;
    let (rules, n1) = many_rule_data(input, n0, num_rules);
    let remaining_data = lossy_string(slice_subrange(input, n0 + n1, input.len()));
    let read = #[verifier::truncate] (rules.len() as i16);
    assert(rules.deep_view().len() == rules.len());
    if read == num_rules && !remaining_data.as_str().is_empty() {
        return Err(DecodeError::new(ErrorKind::TrailingData, input.len()));
    }
    Ok(RulesResponse { num_rules, rules, remaining_data })
}

} // verus!
