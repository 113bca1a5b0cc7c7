//! Key financial metrics and ratios.

use vstd::prelude::*;

use crate::date::Date;
use crate::series::F64Bits;
use crate::symbol::Symbol;

verus! {

/// The mathematical value of a [`KeyMetrics`] record: the same fields with
/// the symbol abstracted to its character sequence.
pub struct KeyMetricsView {
    /// Stock symbol.
    pub symbol: Seq<char>,
    /// Date of the metrics.
    pub date: Date,
    /// The numeric metric items, in the field order of [`KeyMetrics`].
    pub items: Seq<Option<F64Bits>>,
}

/// Key financial metrics and ratios.
///
/// All ratios and amounts are carried as opaque [`F64Bits`] values.
#[derive(Debug, PartialEq)]
pub struct KeyMetrics {
    /// Stock symbol.
    pub symbol: Symbol,
    /// Date of the metrics.
    pub date: Date,
    /// Market capitalization.
    pub market_cap: Option<F64Bits>,
    /// Enterprise value.
    pub enterprise_value: Option<F64Bits>,
    /// Price-to-earnings ratio.
    pub pe_ratio: Option<F64Bits>,
    /// Forward price-to-earnings ratio.
    pub forward_pe: Option<F64Bits>,
    /// Price-to-book ratio.
    pub pb_ratio: Option<F64Bits>,
    /// Price-to-sales ratio.
    pub ps_ratio: Option<F64Bits>,
    /// Price/earnings-to-growth ratio.
    pub peg_ratio: Option<F64Bits>,
    /// EV/EBITDA ratio.
    pub ev_to_ebitda: Option<F64Bits>,
    /// Return on equity.
    pub roe: Option<F64Bits>,
    /// Return on assets.
    pub roa: Option<F64Bits>,
    /// Return on invested capital.
    pub roic: Option<F64Bits>,
    /// Gross profit margin.
    pub gross_margin: Option<F64Bits>,
    /// Operating profit margin.
    pub operating_margin: Option<F64Bits>,
    /// Net profit margin.
    pub net_margin: Option<F64Bits>,
    /// Debt-to-equity ratio.
    pub debt_to_equity: Option<F64Bits>,
    /// Current ratio.
    pub current_ratio: Option<F64Bits>,
    /// Quick ratio.
    pub quick_ratio: Option<F64Bits>,
    /// Dividend yield.
    pub dividend_yield: Option<F64Bits>,
    /// Dividend payout ratio.
    pub payout_ratio: Option<F64Bits>,
    /// Beta coefficient.
    pub beta: Option<F64Bits>,
    /// 52-week high price.
    pub week_52_high: Option<F64Bits>,
    /// 52-week low price.
    pub week_52_low: Option<F64Bits>,
}

impl KeyMetrics {
    /// The numeric metric items in declaration order.
    pub open spec fn spec_items(&self) -> Seq<Option<F64Bits>> {
        seq![
            self.market_cap,
            self.enterprise_value,
            self.pe_ratio,
            self.forward_pe,
            self.pb_ratio,
            self.ps_ratio,
            self.peg_ratio,
            self.ev_to_ebitda,
            self.roe,
            self.roa,
            self.roic,
            self.gross_margin,
            self.operating_margin,
            self.net_margin,
            self.debt_to_equity,
            self.current_ratio,
            self.quick_ratio,
            self.dividend_yield,
            self.payout_ratio,
            self.beta,
            self.week_52_high,
            self.week_52_low,
        ]
    }

    /// Creates new key metrics with the required fields; every numeric item
    /// starts out absent.
    pub fn new(symbol: Symbol, date: Date) -> (r: Self)
        ensures
            r@.symbol == symbol@,
            r@.date == date,
            forall|i: int| 0 <= i < r@.items.len() ==> r@.items[i] is None,
    {
        KeyMetrics {
            symbol,
            date,
            market_cap: None,
            enterprise_value: None,
            pe_ratio: None,
            forward_pe: None,
            pb_ratio: None,
            ps_ratio: None,
            peg_ratio: None,
            ev_to_ebitda: None,
            roe: None,
            roa: None,
            roic: None,
            gross_margin: None,
            operating_margin: None,
            net_margin: None,
            debt_to_equity: None,
            current_ratio: None,
            quick_ratio: None,
            dividend_yield: None,
            payout_ratio: None,
            beta: None,
            week_52_high: None,
            week_52_low: None,
        }
    }
}

impl KeyMetrics {
    /// Returns the numeric metric items in declaration order.
    pub fn items_vec(&self) -> (r: Vec<Option<F64Bits>>)
        ensures
            r@ == self.spec_items(),
    {
        let r = vec![
            self.market_cap,
            self.enterprise_value,
            self.pe_ratio,
            self.forward_pe,
            self.pb_ratio,
            self.ps_ratio,
            self.peg_ratio,
            self.ev_to_ebitda,
            self.roe,
            self.roa,
            self.roic,
            self.gross_margin,
            self.operating_margin,
            self.net_margin,
            self.debt_to_equity,
            self.current_ratio,
            self.quick_ratio,
            self.dividend_yield,
            self.payout_ratio,
            self.beta,
            self.week_52_high,
            self.week_52_low,
        ];
        proof {
            assert(r@ =~= self.spec_items());
        }
        r
    }

    /// Rebuilds a metrics record from its header fields and its numeric
    /// items in declaration order.
    pub fn from_parts(symbol: Symbol, date: Date, items: &Vec<Option<F64Bits>>) -> (r: Self)
        requires
            items@.len() == 22,
        ensures
            r@ == (KeyMetricsView { symbol: symbol@, date, items: items@ }),
    {
        let r = KeyMetrics {
            symbol,
            date,
            market_cap: items[0],
            enterprise_value: items[1],
            pe_ratio: items[2],
            forward_pe: items[3],
            pb_ratio: items[4],
            ps_ratio: items[5],
            peg_ratio: items[6],
            ev_to_ebitda: items[7],
            roe: items[8],
            roa: items[9],
            roic: items[10],
            gross_margin: items[11],
            operating_margin: items[12],
            net_margin: items[13],
            debt_to_equity: items[14],
            current_ratio: items[15],
            quick_ratio: items[16],
            dividend_yield: items[17],
            payout_ratio: items[18],
            beta: items[19],
            week_52_high: items[20],
            week_52_low: items[21],
        };
        proof {
            assert(r.spec_items() =~= items@);
        }
        r
    }
}

impl View for KeyMetrics {
    type V = KeyMetricsView;

    open spec fn view(&self) -> KeyMetricsView {
        KeyMetricsView { symbol: self.symbol@, date: self.date, items: self.spec_items() }
    }
}

impl Clone for KeyMetrics {
    /// The copy denotes the same metrics record.
    fn clone(&self) -> (r: Self)
        ensures
            r@ == self@,
    {
        let r = KeyMetrics {
            symbol: self.symbol.clone(),
            date: self.date,
            market_cap: self.market_cap,
            enterprise_value: self.enterprise_value,
            pe_ratio: self.pe_ratio,
            forward_pe: self.forward_pe,
            pb_ratio: self.pb_ratio,
            ps_ratio: self.ps_ratio,
            peg_ratio: self.peg_ratio,
            ev_to_ebitda: self.ev_to_ebitda,
            roe: self.roe,
            roa: self.roa,
            roic: self.roic,
            gross_margin: self.gross_margin,
            operating_margin: self.operating_margin,
            net_margin: self.net_margin,
            debt_to_equity: self.debt_to_equity,
            current_ratio: self.current_ratio,
            quick_ratio: self.quick_ratio,
            dividend_yield: self.dividend_yield,
            payout_ratio: self.payout_ratio,
            beta: self.beta,
            week_52_high: self.week_52_high,
            week_52_low: self.week_52_low,
        };
        proof {
            assert(r@.items =~= self@.items);
        }
        r
    }
}

} // verus!
