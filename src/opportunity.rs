//! Opportunity records and the steps of their execution plans.
use crate::decimal::{Dec, DecModel};
use crate::exchanges::OrderSide;
use vstd::prelude::*;

verus! {

/// One leg of an execution plan.
#[derive(Clone, Debug)]
pub struct ExecutionStep {
    pub action: String,
    pub symbol: String,
    pub side: OrderSide,
    pub quantity: Dec,
    pub expected_price: Dec,
    pub fees: Dec,
}

/// A detected opportunity. `net_profit_percentage` is the gross percentage
/// less the fees of every leg, in percent.
#[derive(Clone, Debug)]
pub struct ArbitrageOpportunity {
    /// The venue path: one venue, or `seller->buyer`.
    pub exchange: String,
    /// One description per leg.
    pub path: Vec<String>,
    pub profit_percentage: Dec,
    pub net_profit_percentage: Dec,
    pub required_amount: Dec,
    pub estimated_profit_usd: Dec,
    /// Advisory risk between 0 and 1.
    pub risk_score: Dec,
    pub execution_steps: Vec<ExecutionStep>,
    /// Milliseconds since the Unix epoch.
    pub timestamp: i64,
}

pub struct StepModel {
    pub action: Seq<char>,
    pub symbol: Seq<char>,
    pub side: OrderSide,
    pub quantity: DecModel,
    pub expected_price: DecModel,
    pub fees: DecModel,
}

pub struct OpportunityModel {
    pub exchange: Seq<char>,
    pub path: Seq<Seq<char>>,
    pub profit_percentage: DecModel,
    pub net_profit_percentage: DecModel,
    pub required_amount: DecModel,
    pub estimated_profit_usd: DecModel,
    pub risk_score: DecModel,
    pub execution_steps: Seq<StepModel>,
    pub timestamp: int,
}

impl View for ExecutionStep {
    type V = StepModel;

    open spec fn view(&self) -> StepModel {
        StepModel {
            action: self.action@,
            symbol: self.symbol@,
            side: self.side,
            quantity: self.quantity@,
            expected_price: self.expected_price@,
            fees: self.fees@,
        }
    }
}

pub open spec fn texts(v: Seq<String>) -> Seq<Seq<char>> {
    v.map_values(|s: String| s@)
}

pub open spec fn steps(v: Seq<ExecutionStep>) -> Seq<StepModel> {
    v.map_values(|s: ExecutionStep| s@)
}

impl View for ArbitrageOpportunity {
    type V = OpportunityModel;

    open spec fn view(&self) -> OpportunityModel {
        OpportunityModel {
            exchange: self.exchange@,
            path: texts(self.path@),
            profit_percentage: self.profit_percentage@,
            net_profit_percentage: self.net_profit_percentage@,
            required_amount: self.required_amount@,
            estimated_profit_usd: self.estimated_profit_usd@,
            risk_score: self.risk_score@,
            execution_steps: steps(self.execution_steps@),
            timestamp: self.timestamp as int,
        }
    }
}

/// The opportunities of `v`, each as its view.
pub open spec fn opportunities(v: Seq<ArbitrageOpportunity>) -> Seq<OpportunityModel> {
    v.map_values(|o: ArbitrageOpportunity| o@)
}

} // verus!
