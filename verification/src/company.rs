//! Company reference information.

use vstd::prelude::*;

use crate::symbol::Symbol;

verus! {

/// The mathematical value of a [`CompanyInfo`] record: every text field
/// abstracted to its character sequence.
pub struct CompanyInfoView {
    /// Stock symbol.
    pub symbol: Seq<char>,
    /// Company name.
    pub name: Seq<char>,
    /// Primary exchange.
    pub exchange: Seq<char>,
    /// Business sector.
    pub sector: Seq<char>,
    /// Industry within the sector.
    pub industry: Seq<char>,
    /// Country of incorporation.
    pub country: Seq<char>,
    /// Trading currency.
    pub currency: Seq<char>,
    /// SEC CIK number.
    pub cik: Option<Seq<char>>,
    /// Business description.
    pub description: Option<Seq<char>>,
}

/// Company reference information.
#[derive(Debug, PartialEq)]
pub struct CompanyInfo {
    /// Stock symbol.
    pub symbol: Symbol,
    /// Company name.
    pub name: String,
    /// Primary exchange.
    pub exchange: String,
    /// Business sector.
    pub sector: String,
    /// Industry within the sector.
    pub industry: String,
    /// Country of incorporation.
    pub country: String,
    /// Trading currency.
    pub currency: String,
    /// SEC CIK number.
    pub cik: Option<String>,
    /// Business description.
    pub description: Option<String>,
}

impl View for CompanyInfo {
    type V = CompanyInfoView;

    open spec fn view(&self) -> CompanyInfoView {
        CompanyInfoView {
            symbol: self.symbol@,
            name: self.name@,
            exchange: self.exchange@,
            sector: self.sector@,
            industry: self.industry@,
            country: self.country@,
            currency: self.currency@,
            cik: self.cik.deep_view(),
            description: self.description.deep_view(),
        }
    }
}

impl CompanyInfo {
    /// Creates new company info with required fields; the CIK number and the
    /// description start out absent.
    pub fn new(
        symbol: Symbol,
        name: String,
        exchange: String,
        sector: String,
        industry: String,
        country: String,
        currency: String,
    ) -> (r: Self)
        ensures
            r@.symbol == symbol@,
            r@.name == name@,
            r@.exchange == exchange@,
            r@.sector == sector@,
            r@.industry == industry@,
            r@.country == country@,
            r@.currency == currency@,
            r@.cik is None,
            r@.description is None,
    {
        CompanyInfo {
            symbol,
            name,
            exchange,
            sector,
            industry,
            country,
            currency,
            cik: None,
            description: None,
        }
    }

    /// Sets the SEC CIK number.
    pub fn with_cik(self, cik: String) -> (r: Self)
        ensures
            r@ == (CompanyInfoView { cik: Some(cik@), ..self@ }),
    {
        CompanyInfo { cik: Some(cik), ..self }
    }

    /// Sets the business description.
    pub fn with_description(self, description: String) -> (r: Self)
        ensures
            r@ == (CompanyInfoView { description: Some(description@), ..self@ }),
    {
        CompanyInfo { description: Some(description), ..self }
    }
}

impl Clone for CompanyInfo {
    /// The copy denotes the same record.
    fn clone(&self) -> (r: Self)
        ensures
            r@ == self@,
    {
        CompanyInfo {
            symbol: self.symbol.clone(),
            name: self.name.clone(),
            exchange: self.exchange.clone(),
            sector: self.sector.clone(),
            industry: self.industry.clone(),
            country: self.country.clone(),
            currency: self.currency.clone(),
            cik: match &self.cik {
                Some(c) => Some(c.clone()),
                None => None,
            },
            description: match &self.description {
                Some(d) => Some(d.clone()),
                None => None,
            },
        }
    }
}

} // verus!
