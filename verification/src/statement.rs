//! Financial statement records.

use vstd::prelude::*;

use crate::date::Date;
use crate::frequency::PeriodType;
use crate::series::F64Bits;
use crate::symbol::Symbol;

verus! {

/// The mathematical value of a [`FinancialStatement`]: the same fields with
/// the symbol abstracted to its character sequence.
pub struct FinancialStatementView {
    /// Stock symbol.
    pub symbol: Seq<char>,
    /// End date of the reporting period.
    pub period_end: Date,
    /// Type of period (annual or quarterly).
    pub period_type: PeriodType,
    /// Fiscal year.
    pub fiscal_year: Option<i32>,
    /// Fiscal quarter (1-4).
    pub fiscal_quarter: Option<i32>,
    /// The numeric statement items, in the field order of
    /// [`FinancialStatement`].
    pub items: Seq<Option<F64Bits>>,
}

/// Comprehensive financial statement data.
///
/// Contains balance sheet, income statement, and cash flow items. All
/// monetary amounts and ratios are carried as opaque [`F64Bits`] values.
#[derive(Debug, PartialEq)]
pub struct FinancialStatement {
    /// Stock symbol.
    pub symbol: Symbol,
    /// End date of the reporting period.
    pub period_end: Date,
    /// Type of period (annual or quarterly).
    pub period_type: PeriodType,
    /// Fiscal year.
    pub fiscal_year: Option<i32>,
    /// Fiscal quarter (1-4).
    pub fiscal_quarter: Option<i32>,
    /// Total assets.
    pub total_assets: Option<F64Bits>,
    /// Current assets.
    pub current_assets: Option<F64Bits>,
    /// Cash and cash equivalents.
    pub cash_and_equivalents: Option<F64Bits>,
    /// Inventory.
    pub inventory: Option<F64Bits>,
    /// Accounts receivable.
    pub accounts_receivable: Option<F64Bits>,
    /// Total liabilities.
    pub total_liabilities: Option<F64Bits>,
    /// Current liabilities.
    pub current_liabilities: Option<F64Bits>,
    /// Long-term debt.
    pub long_term_debt: Option<F64Bits>,
    /// Short-term debt.
    pub short_term_debt: Option<F64Bits>,
    /// Total debt.
    pub total_debt: Option<F64Bits>,
    /// Accounts payable.
    pub accounts_payable: Option<F64Bits>,
    /// Stockholders' equity.
    pub stockholders_equity: Option<F64Bits>,
    /// Total revenue.
    pub revenue: Option<F64Bits>,
    /// Cost of revenue (COGS).
    pub cost_of_revenue: Option<F64Bits>,
    /// Gross profit.
    pub gross_profit: Option<F64Bits>,
    /// Operating expenses.
    pub operating_expenses: Option<F64Bits>,
    /// Operating income.
    pub operating_income: Option<F64Bits>,
    /// Net income.
    pub net_income: Option<F64Bits>,
    /// EBITDA.
    pub ebitda: Option<F64Bits>,
    /// Basic earnings per share.
    pub eps_basic: Option<F64Bits>,
    /// Diluted earnings per share.
    pub eps_diluted: Option<F64Bits>,
    /// Interest expense.
    pub interest_expense: Option<F64Bits>,
    /// Operating cash flow.
    pub operating_cash_flow: Option<F64Bits>,
    /// Investing cash flow.
    pub investing_cash_flow: Option<F64Bits>,
    /// Financing cash flow.
    pub financing_cash_flow: Option<F64Bits>,
    /// Capital expenditures.
    pub capital_expenditures: Option<F64Bits>,
    /// Free cash flow.
    pub free_cash_flow: Option<F64Bits>,
    /// Dividends paid.
    pub dividends_paid: Option<F64Bits>,
    /// Basic shares outstanding.
    pub shares_outstanding: Option<F64Bits>,
    /// Diluted shares outstanding.
    pub shares_outstanding_diluted: Option<F64Bits>,
}

impl FinancialStatement {
    /// The numeric statement items in declaration order.
    pub open spec fn spec_items(&self) -> Seq<Option<F64Bits>> {
        seq![
            self.total_assets,
            self.current_assets,
            self.cash_and_equivalents,
            self.inventory,
            self.accounts_receivable,
            self.total_liabilities,
            self.current_liabilities,
            self.long_term_debt,
            self.short_term_debt,
            self.total_debt,
            self.accounts_payable,
            self.stockholders_equity,
            self.revenue,
            self.cost_of_revenue,
            self.gross_profit,
            self.operating_expenses,
            self.operating_income,
            self.net_income,
            self.ebitda,
            self.eps_basic,
            self.eps_diluted,
            self.interest_expense,
            self.operating_cash_flow,
            self.investing_cash_flow,
            self.financing_cash_flow,
            self.capital_expenditures,
            self.free_cash_flow,
            self.dividends_paid,
            self.shares_outstanding,
            self.shares_outstanding_diluted,
        ]
    }

    /// Creates a new financial statement with the required fields; every
    /// numeric item starts out absent.
    pub fn new(symbol: Symbol, period_end: Date, period_type: PeriodType) -> (r: Self)
        ensures
            r@.symbol == symbol@,
            r@.period_end == period_end,
            r@.period_type == period_type,
            r@.fiscal_year is None,
            r@.fiscal_quarter is None,
            forall|i: int| 0 <= i < r@.items.len() ==> r@.items[i] is None,
    {
        FinancialStatement {
            symbol,
            period_end,
            period_type,
            fiscal_year: None,
            fiscal_quarter: None,
            total_assets: None,
            current_assets: None,
            cash_and_equivalents: None,
            inventory: None,
            accounts_receivable: None,
            total_liabilities: None,
            current_liabilities: None,
            long_term_debt: None,
            short_term_debt: None,
            total_debt: None,
            accounts_payable: None,
            stockholders_equity: None,
            revenue: None,
            cost_of_revenue: None,
            gross_profit: None,
            operating_expenses: None,
            operating_income: None,
            net_income: None,
            ebitda: None,
            eps_basic: None,
            eps_diluted: None,
            interest_expense: None,
            operating_cash_flow: None,
            investing_cash_flow: None,
            financing_cash_flow: None,
            capital_expenditures: None,
            free_cash_flow: None,
            dividends_paid: None,
            shares_outstanding: None,
            shares_outstanding_diluted: None,
        }
    }
}

impl FinancialStatement {
    /// Returns the numeric statement items in declaration order.
    pub fn items_vec(&self) -> (r: Vec<Option<F64Bits>>)
        ensures
            r@ == self.spec_items(),
    {
        let r = vec![
            self.total_assets,
            self.current_assets,
            self.cash_and_equivalents,
            self.inventory,
            self.accounts_receivable,
            self.total_liabilities,
            self.current_liabilities,
            self.long_term_debt,
            self.short_term_debt,
            self.total_debt,
            self.accounts_payable,
            self.stockholders_equity,
            self.revenue,
            self.cost_of_revenue,
            self.gross_profit,
            self.operating_expenses,
            self.operating_income,
            self.net_income,
            self.ebitda,
            self.eps_basic,
            self.eps_diluted,
            self.interest_expense,
            self.operating_cash_flow,
            self.investing_cash_flow,
            self.financing_cash_flow,
            self.capital_expenditures,
            self.free_cash_flow,
            self.dividends_paid,
            self.shares_outstanding,
            self.shares_outstanding_diluted,
        ];
        proof {
            assert(r@ =~= self.spec_items());
        }
        r
    }

    /// Rebuilds a statement from its header fields and its numeric items in
    /// declaration order.
    pub fn from_parts(
        symbol: Symbol,
        period_end: Date,
        period_type: PeriodType,
        fiscal_year: Option<i32>,
        fiscal_quarter: Option<i32>,
        items: &Vec<Option<F64Bits>>,
    ) -> (r: Self)
        requires
            items@.len() == 30,
        ensures
            r@ == (FinancialStatementView {
                symbol: symbol@,
                period_end,
                period_type,
                fiscal_year,
                fiscal_quarter,
                items: items@,
            }),
    {
        let r = FinancialStatement {
            symbol,
            period_end,
            period_type,
            fiscal_year,
            fiscal_quarter,
            total_assets: items[0],
            current_assets: items[1],
            cash_and_equivalents: items[2],
            inventory: items[3],
            accounts_receivable: items[4],
            total_liabilities: items[5],
            current_liabilities: items[6],
            long_term_debt: items[7],
            short_term_debt: items[8],
            total_debt: items[9],
            accounts_payable: items[10],
            stockholders_equity: items[11],
            revenue: items[12],
            cost_of_revenue: items[13],
            gross_profit: items[14],
            operating_expenses: items[15],
            operating_income: items[16],
            net_income: items[17],
            ebitda: items[18],
            eps_basic: items[19],
            eps_diluted: items[20],
            interest_expense: items[21],
            operating_cash_flow: items[22],
            investing_cash_flow: items[23],
            financing_cash_flow: items[24],
            capital_expenditures: items[25],
            free_cash_flow: items[26],
            dividends_paid: items[27],
            shares_outstanding: items[28],
            shares_outstanding_diluted: items[29],
        };
        proof {
            assert(r.spec_items() =~= items@);
        }
        r
    }
}

impl View for FinancialStatement {
    type V = FinancialStatementView;

    open spec fn view(&self) -> FinancialStatementView {
        FinancialStatementView {
            symbol: self.symbol@,
            period_end: self.period_end,
            period_type: self.period_type,
            fiscal_year: self.fiscal_year,
            fiscal_quarter: self.fiscal_quarter,
            items: self.spec_items(),
        }
    }
}

impl Clone for FinancialStatement {
    /// The copy denotes the same statement.
    fn clone(&self) -> (r: Self)
        ensures
            r@ == self@,
    {
        let r = FinancialStatement {
            symbol: self.symbol.clone(),
            period_end: self.period_end,
            period_type: self.period_type,
            fiscal_year: self.fiscal_year,
            fiscal_quarter: self.fiscal_quarter,
            total_assets: self.total_assets,
            current_assets: self.current_assets,
            cash_and_equivalents: self.cash_and_equivalents,
            inventory: self.inventory,
            accounts_receivable: self.accounts_receivable,
            total_liabilities: self.total_liabilities,
            current_liabilities: self.current_liabilities,
            long_term_debt: self.long_term_debt,
            short_term_debt: self.short_term_debt,
            total_debt: self.total_debt,
            accounts_payable: self.accounts_payable,
            stockholders_equity: self.stockholders_equity,
            revenue: self.revenue,
            cost_of_revenue: self.cost_of_revenue,
            gross_profit: self.gross_profit,
            operating_expenses: self.operating_expenses,
            operating_income: self.operating_income,
            net_income: self.net_income,
            ebitda: self.ebitda,
            eps_basic: self.eps_basic,
            eps_diluted: self.eps_diluted,
            interest_expense: self.interest_expense,
            operating_cash_flow: self.operating_cash_flow,
            investing_cash_flow: self.investing_cash_flow,
            financing_cash_flow: self.financing_cash_flow,
            capital_expenditures: self.capital_expenditures,
            free_cash_flow: self.free_cash_flow,
            dividends_paid: self.dividends_paid,
            shares_outstanding: self.shares_outstanding,
            shares_outstanding_diluted: self.shares_outstanding_diluted,
        };
        proof {
            assert(r@.items =~= self@.items);
        }
        r
    }
}

} // verus!
