//! The request-execution layer: sampling settings, the cost ledger, the
//! retry/timeout state machine and the debug-transcript sequence.
use vstd::prelude::*;
use vstd::string::StringExecFns;

use crate::error::PromptError;
use crate::message::CompletionResponse;
use crate::message::Usage;
use crate::text::eq_str;
use crate::OpenAIModel;

verus! {

/// How the model is told to pick tools.
pub enum LLMToolChoice {
    /// The model decides freely.
    Auto,
    /// The model must call some tool.
    Required,
    /// The model may not call tools.
    NoTools,
    /// The model must call the named tool.
    Named(String),
}

pub ghost enum LLMToolChoiceV {
    Auto,
    Required,
    NoTools,
    Named(Seq<char>),
}

impl View for LLMToolChoice {
    type V = LLMToolChoiceV;

    open spec fn view(&self) -> LLMToolChoiceV {
        match self {
            LLMToolChoice::Auto => LLMToolChoiceV::Auto,
            LLMToolChoice::Required => LLMToolChoiceV::Required,
            LLMToolChoice::NoTools => LLMToolChoiceV::NoTools,
            LLMToolChoice::Named(s) => LLMToolChoiceV::Named(s@),
        }
    }
}

impl LLMToolChoice {
    /// Reads a tool-choice word; any unknown word names a tool.
    pub fn from_str(s: &str) -> (r: LLMToolChoice)
        ensures
            r@ == if s@ == "auto"@ {
                LLMToolChoiceV::Auto
            } else if s@ == "required"@ {
                LLMToolChoiceV::Required
            } else if s@ == "none"@ {
                LLMToolChoiceV::NoTools
            } else {
                LLMToolChoiceV::Named(s@)
            },
    {
        if eq_str(s, "auto") {
            LLMToolChoice::Auto
        } else if eq_str(s, "required") {
            LLMToolChoice::Required
        } else if eq_str(s, "none") {
            LLMToolChoice::NoTools
        } else {
            LLMToolChoice::Named(s.to_owned())
        }
    }

    /// An equal copy.
    pub fn duplicate(&self) -> (r: LLMToolChoice)
        ensures
            r@ == self@,
    {
        match self {
            LLMToolChoice::Auto => LLMToolChoice::Auto,
            LLMToolChoice::Required => LLMToolChoice::Required,
            LLMToolChoice::NoTools => LLMToolChoice::NoTools,
            LLMToolChoice::Named(s) => LLMToolChoice::Named(s.clone()),
        }
    }
}

/// Per-request sampling settings. The two sampling knobs are held in
/// hundredths, so `llm_temperature_centi == 80` stands for a temperature
/// of 0.8; the wire layer divides by one hundred.
pub struct LLMSettings {
    /// Sampling temperature, in hundredths.
    pub llm_temperature_centi: u32,
    /// Presence penalty, in hundredths; may be negative.
    pub llm_presence_penalty_centi: i32,
    /// Per-attempt deadline in seconds; zero means unbounded.
    pub llm_prompt_timeout: u64,
    /// How many attempts one request execution may use.
    pub llm_retry: u64,
    /// Upper bound on completion tokens asked of the service.
    pub llm_max_completion_tokens: u32,
    /// How the model is told to pick tools.
    pub llm_tool_choice: LLMToolChoice,
}

pub ghost struct LLMSettingsV {
    pub llm_temperature_centi: u32,
    pub llm_presence_penalty_centi: i32,
    pub llm_prompt_timeout: u64,
    pub llm_retry: u64,
    pub llm_max_completion_tokens: u32,
    pub llm_tool_choice: LLMToolChoiceV,
}

impl View for LLMSettings {
    type V = LLMSettingsV;

    open spec fn view(&self) -> LLMSettingsV {
        LLMSettingsV {
            llm_temperature_centi: self.llm_temperature_centi,
            llm_presence_penalty_centi: self.llm_presence_penalty_centi,
            llm_prompt_timeout: self.llm_prompt_timeout,
            llm_retry: self.llm_retry,
            llm_max_completion_tokens: self.llm_max_completion_tokens,
            llm_tool_choice: self.llm_tool_choice@,
        }
    }
}

impl LLMSettings {
    /// The standing defaults: temperature 0.8, no presence penalty, a
    /// 120-second deadline, five attempts, 16384 completion tokens, free
    /// tool choice.
    pub fn standard() -> (r: LLMSettings)
        ensures
            r@ == (LLMSettingsV {
                llm_temperature_centi: 80u32,
                llm_presence_penalty_centi: 0i32,
                llm_prompt_timeout: 120u64,
                llm_retry: 5u64,
                llm_max_completion_tokens: 16384u32,
                llm_tool_choice: LLMToolChoiceV::Auto,
            }),
    {
        LLMSettings {
            llm_temperature_centi: 80,
            llm_presence_penalty_centi: 0,
            llm_prompt_timeout: 120,
            llm_retry: 5,
            llm_max_completion_tokens: 16384,
            llm_tool_choice: LLMToolChoice::Auto,
        }
    }

    /// An equal copy.
    pub fn duplicate(&self) -> (r: LLMSettings)
        ensures
            r@ == self@,
    {
        LLMSettings {
            llm_temperature_centi: self.llm_temperature_centi,
            llm_presence_penalty_centi: self.llm_presence_penalty_centi,
            llm_prompt_timeout: self.llm_prompt_timeout,
            llm_retry: self.llm_retry,
            llm_max_completion_tokens: self.llm_max_completion_tokens,
            llm_tool_choice: self.llm_tool_choice.duplicate(),
        }
    }
}

/// The cost ledger one process shares across its conversations.
///
/// `current` and `cap` are held in units of 10^-12 USD: a price is
/// micro-USD per one million tokens, so one token at price `p` costs
/// exactly `p` such units and every charge is exact integer arithmetic.
pub struct ModelBilling {
    /// Cumulative spend so far, in 10^-12 USD. Only ever grows.
    pub current: u128,
    /// The advisory cap, fixed at construction, in 10^-12 USD.
    pub cap: u128,
}

/// One charge: the ledger grows by price times token count.
pub open spec fn spec_charge(current: int, price: int, count: int) -> int {
    current + price * count
}

/// Law: charging `a` tokens and then `b` tokens grows the ledger by
/// exactly as much as charging `a + b` tokens once.
pub proof fn lemma_charge_additive(current: int, price: int, a: int, b: int)
    ensures
        spec_charge(spec_charge(current, price, a), price, b)
            == spec_charge(current, price, a + b),
{
    assert(price * a + price * b == price * (a + b)) by (nonlinear_arith);
}

impl ModelBilling {
    /// A fresh ledger with nothing spent. `cap` is given in micro-USD.
    pub fn new(cap: u64) -> (r: ModelBilling)
        ensures
            r.current == 0,
            r.cap == cap * 1_000_000,
    {
        ModelBilling { current: 0, cap: (cap as u128) * 1_000_000 }
    }

    /// Whether the spend so far is within the cap.
    pub fn in_cap(&self) -> (r: bool)
        ensures
            r <==> self.current <= self.cap,
    {
        self.current <= self.cap
    }

    /// Charges `count` prompt tokens at the model's input price. The
    /// charge is applied first and never rolled back; only then is the cap
    /// checked, so exactly the triggering charge overshoots.
    pub fn input_tokens(&mut self, model: &OpenAIModel, count: u64) -> (r: Result<
        (),
        PromptError,
    >)
        requires
            old(self).current + model.spec_pricing().input_tokens * count <= u128::MAX,
        ensures
            final(self).cap == old(self).cap,
            final(self).current == spec_charge(
                old(self).current as int,
                model.spec_pricing().input_tokens as int,
                count as int,
            ),
            r == if final(self).current <= final(self).cap {
                Ok::<(), PromptError>(())
            } else {
                Err::<(), PromptError>(PromptError::BudgetExceeded)
            },
    {
        let pricing = model.pricing();
        let charge = (pricing.input_tokens as u128) * (count as u128);
        self.current = self.current + charge;
        if self.in_cap() {
            Ok(())
        } else {
            Err(PromptError::BudgetExceeded)
        }
    }

    /// Charges `count` completion tokens at the model's output price, the
    /// same way as [`ModelBilling::input_tokens`].
    pub fn output_tokens(&mut self, model: &OpenAIModel, count: u64) -> (r: Result<
        (),
        PromptError,
    >)
        requires
            old(self).current + model.spec_pricing().output_tokens * count <= u128::MAX,
        ensures
            final(self).cap == old(self).cap,
            final(self).current == spec_charge(
                old(self).current as int,
                model.spec_pricing().output_tokens as int,
                count as int,
            ),
            r == if final(self).current <= final(self).cap {
                Ok::<(), PromptError>(())
            } else {
                Err::<(), PromptError>(PromptError::BudgetExceeded)
            },
    {
        let pricing = model.pricing();
        let charge = (pricing.output_tokens as u128) * (count as u128);
        self.current = self.current + charge;
        if self.in_cap() {
            Ok(())
        } else {
            Err(PromptError::BudgetExceeded)
        }
    }

    /// A plain rendering of the ledger, `Billing(current/cap)` in units of
    /// 10^-12 USD.
    pub fn describe(&self) -> (r: String)
        ensures
            r@ == "Billing("@ + crate::text::spec_dec(self.current as nat) + "/"@
                + crate::text::spec_dec(self.cap as nat) + ")"@,
    {
        let mut r = String::from_str("Billing(");
        r.append(crate::text::u128_to_dec(self.current).as_str());
        r.append("/");
        r.append(crate::text::u128_to_dec(self.cap).as_str());
        r.append(")");
        r
    }
}

/// Charges a response's reported usage: prompt tokens first, completion
/// tokens second, two independent charges. A cap overshoot stops at the
/// charge that caused it and reports `BudgetExceeded`, with the charge
/// kept.
pub fn charge_usage(billing: &mut ModelBilling, model: &OpenAIModel, usage: &Usage) -> (r:
    Result<(), PromptError>)
    requires
        old(billing).current + model.spec_pricing().input_tokens * usage.prompt_tokens
            + model.spec_pricing().output_tokens * usage.completion_tokens <= u128::MAX,
    ensures
        final(billing).cap == old(billing).cap,
        ({
            let c1 = spec_charge(
                old(billing).current as int,
                model.spec_pricing().input_tokens as int,
                usage.prompt_tokens as int,
            );
            let c2 = spec_charge(
                c1,
                model.spec_pricing().output_tokens as int,
                usage.completion_tokens as int,
            );
            if c1 > old(billing).cap {
                final(billing).current == c1 && r == Err::<(), PromptError>(
                    PromptError::BudgetExceeded,
                )
            } else {
                final(billing).current == c2 && r == if c2 <= old(billing).cap {
                    Ok::<(), PromptError>(())
                } else {
                    Err::<(), PromptError>(PromptError::BudgetExceeded)
                }
            }
        }),
{
    proof {
        assert(model.spec_pricing().output_tokens * usage.completion_tokens >= 0)
            by (nonlinear_arith);
        assert(model.spec_pricing().input_tokens * usage.prompt_tokens >= 0)
            by (nonlinear_arith);
    }
    match billing.input_tokens(model, usage.prompt_tokens as u64) {
        Ok(()) => billing.output_tokens(model, usage.completion_tokens as u64),
        Err(e) => Err(e),
    }
}

/// What one completion attempt came back with: a response, an error from
/// the service, or nothing before the deadline.
pub enum AttemptOutcome {
    Response(CompletionResponse),
    Failed(PromptError),
    TimedOut,
}

/// The standing state of one request execution: how many attempts are
/// still allowed and the last error an attempt returned, if any ever did.
/// A timed-out attempt leaves `last` alone.
pub struct RetryState {
    pub remaining: u64,
    pub last: Option<PromptError>,
}

/// What to do after an attempt: hand the response out, give up with a
/// fatal error, or run another attempt from the new state.
pub enum RetryStep {
    Deliver(CompletionResponse),
    GiveUp(PromptError),
    Again(RetryState),
}

/// Begins a request execution with `retry` attempts; zero attempts is a
/// configuration error.
pub fn retry_start(retry: u64) -> (r: Result<RetryState, PromptError>)
    ensures
        match r {
            Ok(st) => retry > 0 && st.remaining == retry && st.last is None,
            Err(e) => retry == 0 && e == PromptError::NoAttemptsConfigured,
        },
{
    if retry == 0 {
        Err(PromptError::NoAttemptsConfigured)
    } else {
        Ok(RetryState { remaining: retry, last: None })
    }
}

/// Consumes one attempt. A response is delivered at once. An error or a
/// timeout uses the attempt up: with attempts left the execution goes
/// again; with none left it gives up, with `RetryExhausted` around the
/// last observed error, or `AllAttemptsTimedOut` if no attempt ever
/// returned.
pub fn retry_step(st: RetryState, outcome: AttemptOutcome) -> (r: RetryStep)
    requires
        st.remaining >= 1,
    ensures
        match outcome {
            AttemptOutcome::Response(resp) => r == RetryStep::Deliver(resp),
            AttemptOutcome::Failed(e) => if st.remaining == 1 {
                r matches RetryStep::GiveUp(g) && g matches PromptError::RetryExhausted(inner)
                    && *inner == e
            } else {
                r == RetryStep::Again(RetryState {
                    remaining: (st.remaining - 1) as u64,
                    last: Some(e),
                })
            },
            AttemptOutcome::TimedOut => if st.remaining == 1 {
                match st.last {
                    Some(le) => r matches RetryStep::GiveUp(g)
                        && g matches PromptError::RetryExhausted(inner) && *inner == le,
                    None => r == RetryStep::GiveUp(PromptError::AllAttemptsTimedOut),
                }
            } else {
                r == RetryStep::Again(RetryState {
                    remaining: (st.remaining - 1) as u64,
                    last: st.last,
                })
            },
        },
{
    match outcome {
        AttemptOutcome::Response(resp) => RetryStep::Deliver(resp),
        AttemptOutcome::Failed(e) => {
            if st.remaining == 1 {
                RetryStep::GiveUp(PromptError::RetryExhausted(Box::new(e)))
            } else {
                RetryStep::Again(RetryState { remaining: st.remaining - 1, last: Some(e) })
            }
        },
        AttemptOutcome::TimedOut => {
            if st.remaining == 1 {
                match st.last {
                    Some(le) => RetryStep::GiveUp(PromptError::RetryExhausted(Box::new(le))),
                    None => RetryStep::GiveUp(PromptError::AllAttemptsTimedOut),
                }
            } else {
                RetryStep::Again(RetryState { remaining: st.remaining - 1, last: st.last })
            }
        },
    }
}

/// The monotonic counter behind transcript numbering. One process shares
/// one sequence; the holder serializes access (the indices are meaningful
/// only if every issue goes through that one shared sequence).
pub struct DebugSequence {
    pub next: u64,
}

impl DebugSequence {
    /// A fresh sequence starting at zero.
    pub fn new() -> (r: DebugSequence)
        ensures
            r.next == 0,
    {
        DebugSequence { next: 0 }
    }

    /// Issues the next index: returns the current value and moves past it,
    /// so consecutive issues hand out consecutive, strictly increasing
    /// indices.
    pub fn next_slot(&mut self) -> (r: u64)
        requires
            old(self).next < u64::MAX,
        ensures
            r == old(self).next,
            final(self).next == old(self).next + 1,
    {
        let r = self.next;
        self.next = self.next + 1;
        r
    }
}

/// Law: issuing slots in turn from one shared sequence starting at
/// `start` hands out `start + k` as the `k`-th index, so any number of
/// issued indices are pairwise distinct and collectively contiguous.
pub proof fn lemma_slot_indices_contiguous(start: nat, issued: Seq<nat>)
    requires
        forall|k: int| 0 <= k < issued.len() ==> issued[k] == start + k,
    ensures
        forall|i: int, j: int| 0 <= i < j < issued.len() ==> issued[i] != issued[j],
        forall|v: nat| start <= v < start + issued.len() ==> issued.contains(v),
{
    assert forall|v: nat| start <= v < start + issued.len() implies issued.contains(v) by {
        assert(issued[v - start] == v);
    }
}

/// The transcript file name for one attempt: the prefix, a dash, the
/// twelve-digit zero-padded index, and the `.xml` ending.
pub open spec fn spec_debug_file_name(prefix: Seq<char>, idx: nat) -> Seq<char> {
    prefix + "-"@ + crate::text::spec_padded12(idx) + ".xml"@
}

/// The candidate name of one process's debug directory: the process id, a
/// dash, and a probe counter.
pub fn debug_dir_name(pid: u32, cnt: u64) -> (r: String)
    ensures
        r@ == crate::text::spec_dec(pid as nat) + "-"@ + crate::text::spec_dec(cnt as nat),
{
    let mut r = crate::text::u64_to_dec(pid as u64);
    r.append("-");
    let c = crate::text::u64_to_dec(cnt);
    r.append(c.as_str());
    r
}

/// Builds the transcript file name of one attempt.
pub fn debug_file_name(prefix: &str, idx: u64) -> (r: String)
    ensures
        r@ == spec_debug_file_name(prefix@, idx as nat),
{
    let mut r = prefix.to_owned();
    r.append("-");
    let padded = crate::text::u64_to_padded12(idx);
    r.append(padded.as_str());
    r.append(".xml");
    r
}

} // verus!
