//! The record of the company being guessed, and the hint revealed each round.

use vstd::prelude::*;
use vstd::string::*;
use crate::format::{decimal, decimal_text};

verus! {

/// A snapshot of the company being guessed. `market_value` is in canonical
/// units (whole currency units).
#[derive(Clone, Debug)]
pub struct CompanyRecord {
    pub name: String,
    pub rank: u32,
    pub market_value: u64,
    pub industry: String,
    pub description: String,
}

/// The mathematical content of a `CompanyRecord`.
pub struct RecordView {
    pub name: Seq<char>,
    pub rank: u32,
    pub market_value: u64,
    pub industry: Seq<char>,
    pub description: Seq<char>,
}

impl View for CompanyRecord {
    type V = RecordView;

    open spec fn view(&self) -> RecordView {
        RecordView {
            name: self.name@,
            rank: self.rank,
            market_value: self.market_value,
            industry: self.industry@,
            description: self.description@,
        }
    }
}

impl CompanyRecord {
    /// A field-by-field copy of the record.
    pub fn snapshot(&self) -> (r: CompanyRecord)
        ensures
            r@ == self@,
    {
        CompanyRecord {
            name: self.name.clone(),
            rank: self.rank,
            market_value: self.market_value,
            industry: self.industry.clone(),
            description: self.description.clone(),
        }
    }
}

/// The supplementary hint revealed in a round.
#[derive(Debug)]
pub enum HintPayload {
    Industry(String),
    Description(String),
    Rank(u32),
    NoHint,
}

/// The mathematical content of a `HintPayload`.
pub enum HintView {
    Industry(Seq<char>),
    Description(Seq<char>),
    Rank(u32),
    NoHint,
}

impl View for HintPayload {
    type V = HintView;

    open spec fn view(&self) -> HintView {
        match self {
            HintPayload::Industry(s) => HintView::Industry(s@),
            HintPayload::Description(s) => HintView::Description(s@),
            HintPayload::Rank(n) => HintView::Rank(*n),
            HintPayload::NoHint => HintView::NoHint,
        }
    }
}

/// Round 1 reveals the industry, round 2 the description, round 3 the rank;
/// any other round has no hint.
pub open spec fn hint_spec(round: int, record: RecordView) -> HintView {
    if round == 1 {
        HintView::Industry(record.industry)
    } else if round == 2 {
        HintView::Description(record.description)
    } else if round == 3 {
        HintView::Rank(record.rank)
    } else {
        HintView::NoHint
    }
}

/// The text that a hint adds to a reply; empty where there is none.
pub open spec fn hint_text(hint: HintView) -> Seq<char> {
    match hint {
        HintView::Industry(s) => " Hint: the company's industry is "@ + s + "."@,
        HintView::Description(s) => " Hint: "@ + s,
        HintView::Rank(n) => " Hint: the company is ranked #"@ + decimal(n as nat) + "."@,
        HintView::NoHint => Seq::empty(),
    }
}

/// The hint for `round` of a game on `record`; it depends on nothing else.
pub fn hint_for_round(round: u64, record: &CompanyRecord) -> (r: HintPayload)
    ensures
        r@ == hint_spec(round as int, record@),
{
    if round == 1 {
        HintPayload::Industry(record.industry.clone())
    } else if round == 2 {
        HintPayload::Description(record.description.clone())
    } else if round == 3 {
        HintPayload::Rank(record.rank)
    } else {
        HintPayload::NoHint
    }
}

impl HintPayload {
    /// The text this hint adds to a reply.
    pub fn render(&self) -> (r: String)
        ensures
            r@ == hint_text(self@),
    {
        match self {
            HintPayload::Industry(s) => {
                let mut t = String::from_str(" Hint: the company's industry is ");
                t.append(s.as_str());
                t.append(".");
                t
            },
            HintPayload::Description(s) => {
                let mut t = String::from_str(" Hint: ");
                t.append(s.as_str());
                t
            },
            HintPayload::Rank(n) => {
                let mut t = String::from_str(" Hint: the company is ranked #");
                let digits = decimal_text(*n as u64);
                t.append(digits.as_str());
                t.append(".");
                t
            },
            HintPayload::NoHint => String::new(),
        }
    }
}

} // verus!
