//! XBRL tag mappings for financial statement concepts.
//!
//! Different filers may use different XBRL tags for the same concept; this
//! module maps a concept name to every tag that may carry it, in preference
//! order.

use vstd::prelude::*;

verus! {

/// Decides equality of two string slices' character sequences.
fn str_eq(a: &str, b: &str) -> (r: bool)
    ensures
        r == (a@ == b@),
{
    a.to_owned() == b.to_owned()
}

/// The XBRL tags for a concept name, in preference order, or `None` for an
/// unknown concept.
pub open spec fn spec_xbrl_tags(s: Seq<char>) -> Option<Seq<Seq<char>>> {
    if s == "Assets"@ {
        Some(seq!["Assets"@])
    } else if s == "AssetsCurrent"@ {
        Some(seq!["AssetsCurrent"@])
    } else if s == "CashAndCashEquivalents"@ {
        Some(seq!["CashAndCashEquivalentsAtCarryingValue"@, "Cash"@, "CashCashEquivalentsAndShortTermInvestments"@])
    } else if s == "Inventory"@ {
        Some(seq!["InventoryNet"@, "Inventories"@])
    } else if s == "AccountsReceivable"@ {
        Some(seq!["AccountsReceivableNetCurrent"@, "AccountsReceivableNet"@, "ReceivablesNetCurrent"@])
    } else if s == "Liabilities"@ {
        Some(seq!["Liabilities"@, "LiabilitiesAndStockholdersEquity"@])
    } else if s == "LiabilitiesCurrent"@ {
        Some(seq!["LiabilitiesCurrent"@])
    } else if s == "LongTermDebt"@ {
        Some(seq!["LongTermDebt"@, "LongTermDebtNoncurrent"@, "LongTermDebtAndCapitalLeaseObligations"@])
    } else if s == "ShortTermDebt"@ {
        Some(seq!["ShortTermBorrowings"@, "DebtCurrent"@, "CurrentPortionOfLongTermDebt"@])
    } else if s == "TotalDebt"@ {
        Some(seq!["Debt"@, "TotalDebt"@])
    } else if s == "AccountsPayable"@ {
        Some(seq!["AccountsPayableCurrent"@, "AccountsPayableAndAccruedLiabilitiesCurrent"@])
    } else if s == "StockholdersEquity"@ {
        Some(seq!["StockholdersEquity"@, "StockholdersEquityIncludingPortionAttributableToNoncontrollingInterest"@])
    } else if s == "Revenue"@ {
        Some(seq!["Revenues"@, "RevenueFromContractWithCustomerExcludingAssessedTax"@, "SalesRevenueNet"@, "RevenueFromContractWithCustomerIncludingAssessedTax"@])
    } else if s == "CostOfRevenue"@ {
        Some(seq!["CostOfRevenue"@, "CostOfGoodsAndServicesSold"@, "CostOfGoodsSold"@])
    } else if s == "GrossProfit"@ {
        Some(seq!["GrossProfit"@])
    } else if s == "OperatingIncome"@ {
        Some(seq!["OperatingIncomeLoss"@, "IncomeLossFromContinuingOperationsBeforeIncomeTaxesExtraordinaryItemsNoncontrollingInterest"@])
    } else if s == "OperatingExpenses"@ {
        Some(seq!["OperatingExpenses"@])
    } else if s == "NetIncome"@ {
        Some(seq!["NetIncomeLoss"@, "ProfitLoss"@, "NetIncomeLossAvailableToCommonStockholdersBasic"@])
    } else if s == "EBITDA"@ {
        Some(seq!["EarningsBeforeInterestTaxesDepreciationAndAmortization"@])
    } else if s == "EarningsPerShareBasic"@ {
        Some(seq!["EarningsPerShareBasic"@])
    } else if s == "EarningsPerShareDiluted"@ {
        Some(seq!["EarningsPerShareDiluted"@])
    } else if s == "InterestExpense"@ {
        Some(seq!["InterestExpense"@, "InterestPaid"@])
    } else if s == "OperatingCashFlow"@ {
        Some(seq!["NetCashProvidedByUsedInOperatingActivities"@, "CashProvidedByUsedInOperatingActivities"@])
    } else if s == "InvestingCashFlow"@ {
        Some(seq!["NetCashProvidedByUsedInInvestingActivities"@])
    } else if s == "FinancingCashFlow"@ {
        Some(seq!["NetCashProvidedByUsedInFinancingActivities"@])
    } else if s == "CapitalExpenditures"@ {
        Some(seq!["PaymentsToAcquirePropertyPlantAndEquipment"@, "PaymentsForCapitalImprovements"@, "CapitalExpendituresIncurredButNotYetPaid"@])
    } else if s == "DividendsPaid"@ {
        Some(seq!["PaymentsOfDividends"@, "PaymentsOfDividendsCommonStock"@])
    } else if s == "SharesOutstanding"@ {
        Some(seq!["CommonStockSharesOutstanding"@, "CommonStockSharesIssued"@])
    } else if s == "WeightedAverageSharesOutstandingBasic"@ {
        Some(seq!["WeightedAverageNumberOfSharesOutstandingBasic"@])
    } else if s == "WeightedAverageSharesOutstandingDiluted"@ {
        Some(seq!["WeightedAverageNumberOfDilutedSharesOutstanding"@])
    } else {
        None
    }
}

/// Returns the possible XBRL tags for a concept, in preference order.
pub fn get_xbrl_tags(concept: &str) -> (r: Option<Vec<&'static str>>)
    ensures
        r is Some <==> spec_xbrl_tags(concept@) is Some,
        r matches Some(v) ==> (spec_xbrl_tags(concept@) matches Some(t) && v.deep_view() =~~= t),
{
    if str_eq(concept, "Assets") {
        Some(vec!["Assets"])
    } else if str_eq(concept, "AssetsCurrent") {
        Some(vec!["AssetsCurrent"])
    } else if str_eq(concept, "CashAndCashEquivalents") {
        Some(vec!["CashAndCashEquivalentsAtCarryingValue", "Cash", "CashCashEquivalentsAndShortTermInvestments"])
    } else if str_eq(concept, "Inventory") {
        Some(vec!["InventoryNet", "Inventories"])
    } else if str_eq(concept, "AccountsReceivable") {
        Some(vec!["AccountsReceivableNetCurrent", "AccountsReceivableNet", "ReceivablesNetCurrent"])
    } else if str_eq(concept, "Liabilities") {
        Some(vec!["Liabilities", "LiabilitiesAndStockholdersEquity"])
    } else if str_eq(concept, "LiabilitiesCurrent") {
        Some(vec!["LiabilitiesCurrent"])
    } else if str_eq(concept, "LongTermDebt") {
        Some(vec!["LongTermDebt", "LongTermDebtNoncurrent", "LongTermDebtAndCapitalLeaseObligations"])
    } else if str_eq(concept, "ShortTermDebt") {
        Some(vec!["ShortTermBorrowings", "DebtCurrent", "CurrentPortionOfLongTermDebt"])
    } else if str_eq(concept, "TotalDebt") {
        Some(vec!["Debt", "TotalDebt"])
    } else if str_eq(concept, "AccountsPayable") {
        Some(vec!["AccountsPayableCurrent", "AccountsPayableAndAccruedLiabilitiesCurrent"])
    } else if str_eq(concept, "StockholdersEquity") {
        Some(vec!["StockholdersEquity", "StockholdersEquityIncludingPortionAttributableToNoncontrollingInterest"])
    } else if str_eq(concept, "Revenue") {
        Some(vec!["Revenues", "RevenueFromContractWithCustomerExcludingAssessedTax", "SalesRevenueNet", "RevenueFromContractWithCustomerIncludingAssessedTax"])
    } else if str_eq(concept, "CostOfRevenue") {
        Some(vec!["CostOfRevenue", "CostOfGoodsAndServicesSold", "CostOfGoodsSold"])
    } else if str_eq(concept, "GrossProfit") {
        Some(vec!["GrossProfit"])
    } else if str_eq(concept, "OperatingIncome") {
        Some(vec!["OperatingIncomeLoss", "IncomeLossFromContinuingOperationsBeforeIncomeTaxesExtraordinaryItemsNoncontrollingInterest"])
    } else if str_eq(concept, "OperatingExpenses") {
        Some(vec!["OperatingExpenses"])
    } else if str_eq(concept, "NetIncome") {
        Some(vec!["NetIncomeLoss", "ProfitLoss", "NetIncomeLossAvailableToCommonStockholdersBasic"])
    } else if str_eq(concept, "EBITDA") {
        Some(vec!["EarningsBeforeInterestTaxesDepreciationAndAmortization"])
    } else if str_eq(concept, "EarningsPerShareBasic") {
        Some(vec!["EarningsPerShareBasic"])
    } else if str_eq(concept, "EarningsPerShareDiluted") {
        Some(vec!["EarningsPerShareDiluted"])
    } else if str_eq(concept, "InterestExpense") {
        Some(vec!["InterestExpense", "InterestPaid"])
    } else if str_eq(concept, "OperatingCashFlow") {
        Some(vec!["NetCashProvidedByUsedInOperatingActivities", "CashProvidedByUsedInOperatingActivities"])
    } else if str_eq(concept, "InvestingCashFlow") {
        Some(vec!["NetCashProvidedByUsedInInvestingActivities"])
    } else if str_eq(concept, "FinancingCashFlow") {
        Some(vec!["NetCashProvidedByUsedInFinancingActivities"])
    } else if str_eq(concept, "CapitalExpenditures") {
        Some(vec!["PaymentsToAcquirePropertyPlantAndEquipment", "PaymentsForCapitalImprovements", "CapitalExpendituresIncurredButNotYetPaid"])
    } else if str_eq(concept, "DividendsPaid") {
        Some(vec!["PaymentsOfDividends", "PaymentsOfDividendsCommonStock"])
    } else if str_eq(concept, "SharesOutstanding") {
        Some(vec!["CommonStockSharesOutstanding", "CommonStockSharesIssued"])
    } else if str_eq(concept, "WeightedAverageSharesOutstandingBasic") {
        Some(vec!["WeightedAverageNumberOfSharesOutstandingBasic"])
    } else if str_eq(concept, "WeightedAverageSharesOutstandingDiluted") {
        Some(vec!["WeightedAverageNumberOfDilutedSharesOutstanding"])
    } else {
        None
    }
}

} // verus!
