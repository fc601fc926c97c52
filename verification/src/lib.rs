//! A verified core for a tool-calling conversation loop against a chat
//! completion service: a tool registry with typed descriptors, the agent
//! turn state machine, retry/timeout decisions for request execution, a
//! cumulative cost budget, and transcript naming for debug capture.
//!
//! All I/O (the wire client, tool side effects, transcript writes) lives
//! outside this crate; the functions here take the outcomes of those
//! actions as plain values and decide every step of the conversation.
use vstd::prelude::*;
use vstd::string::StringExecFns;

pub mod agent;
pub mod error;
pub mod llm;
pub mod message;
pub mod render;
pub mod text;
pub mod tool;
pub mod tools;

use crate::text::contains_char;
use crate::text::eq_str;
use crate::text::parse_price_micro;
use crate::text::spec_price_micro;
use crate::text::spec_split;
use crate::text::split_at_char;
use crate::text::lemma_split_two_pieces;

verus! {

/// Price table for one model, in micro-USD (USD * 10^-6) per one million
/// tokens. The service quotes its prices in USD per 1M tokens; storing
/// micro-USD keeps every charge an exact integer.
#[derive(Clone, Copy, Debug, PartialEq, Eq)]
pub struct PricingInfo {
    pub input_tokens: u64,
    pub output_tokens: u64,
    pub cached_input_tokens: Option<u64>,
}

/// The price table that free-form price pieces describe: two pieces give
/// input and output prices, three add a cached-input price, any other
/// count is rejected. `k` is where the price pieces start.
pub open spec fn spec_prices_from(pieces: Seq<Seq<char>>, k: int) -> Option<PricingInfo> {
    if pieces.len() - k == 2 {
        match (spec_price_micro(pieces[k]), spec_price_micro(pieces[k + 1])) {
            (Some(a), Some(b)) => Some(PricingInfo {
                input_tokens: a as u64,
                output_tokens: b as u64,
                cached_input_tokens: None,
            }),
            _ => None,
        }
    } else if pieces.len() - k == 3 {
        match (spec_price_micro(pieces[k]), spec_price_micro(pieces[k + 1]),
            spec_price_micro(pieces[k + 2])) {
            (Some(a), Some(b), Some(c)) => Some(PricingInfo {
                input_tokens: a as u64,
                output_tokens: b as u64,
                cached_input_tokens: Some(c as u64),
            }),
            _ => None,
        }
    } else {
        None
    }
}

impl PricingInfo {
    /// The pricing that a comma-separated price string describes, if any.
    pub open spec fn spec_from_str(s: Seq<char>) -> Option<PricingInfo> {
        spec_prices_from(spec_split(s, ','), 0)
    }

    /// Reads `"in,out"` or `"in,out,cached"` as a price table, each piece a
    /// plain decimal in USD per 1M tokens.
    pub fn from_str(s: &str) -> (r: Result<PricingInfo, String>)
        ensures
            match r {
                Ok(p) => Self::spec_from_str(s@) == Some(p),
                Err(_) => Self::spec_from_str(s@) is None,
            },
    {
        let pieces = split_at_char(s, ',');
        parse_price_pieces(&pieces, 0)
    }
}

/// Parses the pieces of a price list from position `start` on, as
/// [`spec_prices_from`] describes.
fn parse_price_pieces(pieces: &Vec<String>, start: usize) -> (r: Result<PricingInfo, String>)
    requires
        start <= pieces@.len(),
    ensures
        match r {
            Ok(p) => spec_prices_from(pieces.deep_view(), start as int) == Some(p),
            Err(_) => spec_prices_from(pieces.deep_view(), start as int) is None,
        },
{
    proof {
        assert(forall|k: int| 0 <= k < pieces@.len()
            ==> pieces.deep_view()[k] == #[trigger] pieces@[k]@);
    }
    if pieces.len() - start == 2 {
        let a = parse_price_micro(pieces[start].as_str());
        let b = parse_price_micro(pieces[start + 1].as_str());
        match (a, b) {
            (Some(a), Some(b)) => Ok(PricingInfo {
                input_tokens: a,
                output_tokens: b,
                cached_input_tokens: None,
            }),
            _ => Err(fail_to_parse_pricing()),
        }
    } else if pieces.len() - start == 3 {
        let a = parse_price_micro(pieces[start].as_str());
        let b = parse_price_micro(pieces[start + 1].as_str());
        let c = parse_price_micro(pieces[start + 2].as_str());
        match (a, b, c) {
            (Some(a), Some(b), Some(c)) => Ok(PricingInfo {
                input_tokens: a,
                output_tokens: b,
                cached_input_tokens: Some(c),
            }),
            _ => Err(fail_to_parse_pricing()),
        }
    } else {
        Err(fail_to_parse_pricing())
    }
}

fn fail_to_parse_pricing() -> (r: String) {
    String::from_str("fail to parse pricing")
}

/// A chat completion model: the well-known ones, or any other model name
/// with an explicit price table.
#[derive(Debug, Clone, PartialEq)]
pub enum OpenAIModel {
    GPT4O,
    GPT4OMINI,
    O1,
    O1MINI,
    GPT35TURBO,
    GPT4,
    GPT4TURBO,
    Other(String, PricingInfo),
}

/// The model a well-known name or alias denotes.
pub open spec fn spec_known_model(s: Seq<char>) -> Option<OpenAIModel> {
    if s == "gpt-4o"@ || s == "gpt4o"@ {
        Some(OpenAIModel::GPT4O)
    } else if s == "gpt-4"@ || s == "gpt"@ {
        Some(OpenAIModel::GPT4)
    } else if s == "gpt-4-turbo"@ || s == "gpt4turbo"@ {
        Some(OpenAIModel::GPT4TURBO)
    } else if s == "gpt-4o-mini"@ || s == "gpt4omini"@ {
        Some(OpenAIModel::GPT4OMINI)
    } else if s == "o1"@ {
        Some(OpenAIModel::O1)
    } else if s == "o1-mini"@ {
        Some(OpenAIModel::O1MINI)
    } else if s == "gpt-3.5-turbo"@ || s == "gpt3.5turbo"@ {
        Some(OpenAIModel::GPT35TURBO)
    } else {
        None
    }
}

impl OpenAIModel {
    /// The canonical identifier sent to the completion service.
    pub open spec fn spec_name(&self) -> Seq<char> {
        match self {
            OpenAIModel::GPT4O => "gpt-4o"@,
            OpenAIModel::GPT4OMINI => "gpt-4o-mini"@,
            OpenAIModel::O1 => "o1"@,
            OpenAIModel::O1MINI => "o1-mini"@,
            OpenAIModel::GPT35TURBO => "gpt-3.5-turbo"@,
            OpenAIModel::GPT4 => "gpt-4"@,
            OpenAIModel::GPT4TURBO => "gpt-4-turbo"@,
            OpenAIModel::Other(s, _) => s@,
        }
    }

    /// Renders the model identifier for a request.
    pub fn name(&self) -> (r: String)
        ensures
            r@ == self.spec_name(),
    {
        match self {
            OpenAIModel::GPT4O => String::from_str("gpt-4o"),
            OpenAIModel::GPT4OMINI => String::from_str("gpt-4o-mini"),
            OpenAIModel::O1 => String::from_str("o1"),
            OpenAIModel::O1MINI => String::from_str("o1-mini"),
            OpenAIModel::GPT35TURBO => String::from_str("gpt-3.5-turbo"),
            OpenAIModel::GPT4 => String::from_str("gpt-4"),
            OpenAIModel::GPT4TURBO => String::from_str("gpt-4-turbo"),
            OpenAIModel::Other(s, _) => s.clone(),
        }
    }

    /// The standing price table of each model, in micro-USD per 1M tokens.
    pub open spec fn spec_pricing(&self) -> PricingInfo {
        match self {
            OpenAIModel::GPT4O => PricingInfo {
                input_tokens: 2_500_000,
                output_tokens: 10_000_000,
                cached_input_tokens: Some(1_250_000),
            },
            OpenAIModel::GPT4OMINI => PricingInfo {
                input_tokens: 150_000,
                output_tokens: 600_000,
                cached_input_tokens: Some(75_000),
            },
            OpenAIModel::O1 => PricingInfo {
                input_tokens: 15_000_000,
                output_tokens: 60_000_000,
                cached_input_tokens: Some(7_500_000),
            },
            OpenAIModel::O1MINI => PricingInfo {
                input_tokens: 3_000_000,
                output_tokens: 12_000_000,
                cached_input_tokens: Some(1_500_000),
            },
            OpenAIModel::GPT35TURBO => PricingInfo {
                input_tokens: 3_000_000,
                output_tokens: 6_000_000,
                cached_input_tokens: None,
            },
            OpenAIModel::GPT4 => PricingInfo {
                input_tokens: 30_000_000,
                output_tokens: 60_000_000,
                cached_input_tokens: None,
            },
            OpenAIModel::GPT4TURBO => PricingInfo {
                input_tokens: 10_000_000,
                output_tokens: 30_000_000,
                cached_input_tokens: None,
            },
            OpenAIModel::Other(_, pricing) => *pricing,
        }
    }

    /// The price table used for the standard (non-batch) endpoint.
    pub fn pricing(&self) -> (r: PricingInfo)
        ensures
            r == self.spec_pricing(),
    {
        match self {
            OpenAIModel::GPT4O => PricingInfo {
                input_tokens: 2_500_000,
                output_tokens: 10_000_000,
                cached_input_tokens: Some(1_250_000),
            },
            OpenAIModel::GPT4OMINI => PricingInfo {
                input_tokens: 150_000,
                output_tokens: 600_000,
                cached_input_tokens: Some(75_000),
            },
            OpenAIModel::O1 => PricingInfo {
                input_tokens: 15_000_000,
                output_tokens: 60_000_000,
                cached_input_tokens: Some(7_500_000),
            },
            OpenAIModel::O1MINI => PricingInfo {
                input_tokens: 3_000_000,
                output_tokens: 12_000_000,
                cached_input_tokens: Some(1_500_000),
            },
            OpenAIModel::GPT35TURBO => PricingInfo {
                input_tokens: 3_000_000,
                output_tokens: 6_000_000,
                cached_input_tokens: None,
            },
            OpenAIModel::GPT4 => PricingInfo {
                input_tokens: 30_000_000,
                output_tokens: 60_000_000,
                cached_input_tokens: None,
            },
            OpenAIModel::GPT4TURBO => PricingInfo {
                input_tokens: 10_000_000,
                output_tokens: 30_000_000,
                cached_input_tokens: None,
            },
            OpenAIModel::Other(_, pricing) => *pricing,
        }
    }

    /// The discounted batch-endpoint price table of the models that have
    /// one.
    pub open spec fn spec_batch_pricing(&self) -> Option<PricingInfo> {
        match self {
            OpenAIModel::GPT4O => Some(PricingInfo {
                input_tokens: 1_250_000,
                output_tokens: 5_000_000,
                cached_input_tokens: None,
            }),
            OpenAIModel::GPT4OMINI => Some(PricingInfo {
                input_tokens: 75_000,
                output_tokens: 300_000,
                cached_input_tokens: None,
            }),
            _ => None,
        }
    }

    /// The batch-endpoint price table, where the model has one.
    pub fn batch_pricing(&self) -> (r: Option<PricingInfo>)
        ensures
            r == self.spec_batch_pricing(),
    {
        match self {
            OpenAIModel::GPT4O => Some(PricingInfo {
                input_tokens: 1_250_000,
                output_tokens: 5_000_000,
                cached_input_tokens: None,
            }),
            OpenAIModel::GPT4OMINI => Some(PricingInfo {
                input_tokens: 75_000,
                output_tokens: 300_000,
                cached_input_tokens: None,
            }),
            _ => None,
        }
    }

    /// Reads a model description: a well-known name or alias; any other
    /// plain name, which then carries a zero price table; or
    /// `"name,in,out[,cached]"`, a name with its own price table.
    pub fn from_str(s: &str) -> (r: Result<OpenAIModel, String>)
        ensures
            match r {
                Ok(m) => match spec_known_model(s@) {
                    Some(k) => m == k,
                    None => m matches OpenAIModel::Other(name, p) && if !s@.contains(',') {
                        name@ == s@ && p == (PricingInfo {
                            input_tokens: 0,
                            output_tokens: 0,
                            cached_input_tokens: None,
                        })
                    } else {
                        name@ == spec_split(s@, ',')[0]
                            && spec_prices_from(spec_split(s@, ','), 1) == Some(p)
                    },
                },
                Err(_) => spec_known_model(s@) is None && s@.contains(',')
                    && spec_prices_from(spec_split(s@, ','), 1) is None,
            },
    {
        if eq_str(s, "gpt-4o") || eq_str(s, "gpt4o") {
            Ok(OpenAIModel::GPT4O)
        } else if eq_str(s, "gpt-4") || eq_str(s, "gpt") {
            Ok(OpenAIModel::GPT4)
        } else if eq_str(s, "gpt-4-turbo") || eq_str(s, "gpt4turbo") {
            Ok(OpenAIModel::GPT4TURBO)
        } else if eq_str(s, "gpt-4o-mini") || eq_str(s, "gpt4omini") {
            Ok(OpenAIModel::GPT4OMINI)
        } else if eq_str(s, "o1") {
            Ok(OpenAIModel::O1)
        } else if eq_str(s, "o1-mini") {
            Ok(OpenAIModel::O1MINI)
        } else if eq_str(s, "gpt-3.5-turbo") || eq_str(s, "gpt3.5turbo") {
            Ok(OpenAIModel::GPT35TURBO)
        } else if !contains_char(s, ',') {
            Ok(OpenAIModel::Other(s.to_owned(), PricingInfo {
                input_tokens: 0,
                output_tokens: 0,
                cached_input_tokens: None,
            }))
        } else {
            let pieces = split_at_char(s, ',');
            proof {
                lemma_split_two_pieces(s@, ',');
                assert(forall|k: int| 0 <= k < pieces@.len()
                    ==> pieces.deep_view()[k] == #[trigger] pieces@[k]@);
            }
            let name = pieces[0].clone();
            match parse_price_pieces(&pieces, 1) {
                Ok(p) => Ok(OpenAIModel::Other(name, p)),
                Err(e) => Err(e),
            }
        }
    }
}

} // verus!
