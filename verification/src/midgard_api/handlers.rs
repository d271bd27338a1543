//! The four series and where each is fetched from.

use crate::midgard_api::interface::{Interface, Params};
use crate::text::same_text;
use vstd::prelude::*;
use vstd::string::*;

verus! {

/// The texts of `names`, in their order.
pub open spec fn texts(names: Seq<&'static str>) -> Seq<Seq<char>> {
    Seq::new(names.len(), |i: int| names[i]@)
}

/// A series of the history.
#[derive(Clone, Copy, Debug, PartialEq, Eq, Structural)]
pub enum Series {
    DepthPrice,
    Earnings,
    RunePool,
    Swaps,
}

impl Series {
    /// The resource of the upstream API that holds the series.
    pub open spec fn resource_name(self) -> Seq<char> {
        match self {
            Series::DepthPrice => "depths/BTC.BTC"@,
            Series::Earnings => "earnings"@,
            Series::RunePool => "runepool"@,
            Series::Swaps => "swaps"@,
        }
    }

    /// The table that holds the series.
    pub open spec fn table_name(self) -> Seq<char> {
        match self {
            Series::DepthPrice => "depth_price_history"@,
            Series::Earnings => "earnings_history"@,
            Series::RunePool => "rune_pool_history"@,
            Series::Swaps => "swaps_history"@,
        }
    }

    /// The columns of the series, in the order of its table. A request may
    /// sort by these and by nothing else.
    pub open spec fn column_names(self) -> Seq<Seq<char>> {
        match self {
            Series::DepthPrice => seq![
                "start_time"@, "end_time"@, "asset_depth"@, "rune_depth"@, "asset_price"@,
                "asset_price_usd"@, "liquidity_units"@, "members_count"@, "synth_units"@,
                "synth_supply"@, "units"@, "luvi"@,
            ],
            Series::Earnings => seq![
                "start_time"@, "end_time"@, "liquidity_fees"@, "block_rewards"@, "earnings"@,
                "bonding_earnings"@, "liquidity_earnings"@, "avg_node_count"@,
                "rune_price_usd"@,
            ],
            Series::RunePool => seq![
                "start_time"@, "end_time"@, "count"@, "units"@,
            ],
            Series::Swaps => seq![
                "start_time"@, "end_time"@, "to_asset_count"@, "to_rune_count"@,
                "to_trade_count"@, "from_trade_count"@, "synth_mint_count"@,
                "synth_redeem_count"@, "total_count"@, "to_asset_volume"@, "to_rune_volume"@,
                "to_trade_volume"@, "from_trade_volume"@, "synth_mint_volume"@,
                "synth_redeem_volume"@, "total_volume"@, "to_asset_volume_usd"@,
                "to_rune_volume_usd"@, "to_trade_volume_usd"@, "from_trade_volume_usd"@,
                "synth_mint_volume_usd"@, "synth_redeem_volume_usd"@, "total_volume_usd"@,
                "to_asset_fees"@, "to_rune_fees"@, "to_trade_fees"@, "from_trade_fees"@,
                "synth_mint_fees"@, "synth_redeem_fees"@, "total_fees"@,
                "to_asset_average_slip"@, "to_rune_average_slip"@, "to_trade_average_slip"@,
                "from_trade_average_slip"@, "synth_mint_average_slip"@,
                "synth_redeem_average_slip"@, "average_slip"@, "rune_price_usd"@,
            ],
        }
    }

    /// Whether `name` is a column of the series.
    pub open spec fn is_column(self, name: Seq<char>) -> bool {
        self.column_names().contains(name)
    }

    /// The series that is brought up to date after this one, if any.
    pub open spec fn following(self) -> Option<Series> {
        match self {
            Series::DepthPrice => Some(Series::Earnings),
            Series::Earnings => Some(Series::RunePool),
            Series::RunePool => Some(Series::Swaps),
            Series::Swaps => None,
        }
    }

    /// The resource of the upstream API that holds the series.
    pub fn resource(&self) -> (name: &'static str)
        ensures
            name@ == self.resource_name(),
    {
        match self {
            Series::DepthPrice => "depths/BTC.BTC",
            Series::Earnings => "earnings",
            Series::RunePool => "runepool",
            Series::Swaps => "swaps",
        }
    }

    /// The table that holds the series.
    pub fn table(&self) -> (name: &'static str)
        ensures
            name@ == self.table_name(),
    {
        match self {
            Series::DepthPrice => "depth_price_history",
            Series::Earnings => "earnings_history",
            Series::RunePool => "rune_pool_history",
            Series::Swaps => "swaps_history",
        }
    }

    /// The columns of the series, in the order of its table.
    pub fn columns(&self) -> (names: Vec<&'static str>)
        ensures
            texts(names@) == self.column_names(),
    {
        let mut names: Vec<&'static str> = Vec::new();
        match self {
            Series::DepthPrice => {
                names.push("start_time");
                names.push("end_time");
                names.push("asset_depth");
                names.push("rune_depth");
                names.push("asset_price");
                names.push("asset_price_usd");
                names.push("liquidity_units");
                names.push("members_count");
                names.push("synth_units");
                names.push("synth_supply");
                names.push("units");
                names.push("luvi");
            },
            Series::Earnings => {
                names.push("start_time");
                names.push("end_time");
                names.push("liquidity_fees");
                names.push("block_rewards");
                names.push("earnings");
                names.push("bonding_earnings");
                names.push("liquidity_earnings");
                names.push("avg_node_count");
                names.push("rune_price_usd");
            },
            Series::RunePool => {
                names.push("start_time");
                names.push("end_time");
                names.push("count");
                names.push("units");
            },
            Series::Swaps => {
                names.push("start_time");
                names.push("end_time");
                names.push("to_asset_count");
                names.push("to_rune_count");
                names.push("to_trade_count");
                names.push("from_trade_count");
                names.push("synth_mint_count");
                names.push("synth_redeem_count");
                names.push("total_count");
                names.push("to_asset_volume");
                names.push("to_rune_volume");
                names.push("to_trade_volume");
                names.push("from_trade_volume");
                names.push("synth_mint_volume");
                names.push("synth_redeem_volume");
                names.push("total_volume");
                names.push("to_asset_volume_usd");
                names.push("to_rune_volume_usd");
                names.push("to_trade_volume_usd");
                names.push("from_trade_volume_usd");
                names.push("synth_mint_volume_usd");
                names.push("synth_redeem_volume_usd");
                names.push("total_volume_usd");
                names.push("to_asset_fees");
                names.push("to_rune_fees");
                names.push("to_trade_fees");
                names.push("from_trade_fees");
                names.push("synth_mint_fees");
                names.push("synth_redeem_fees");
                names.push("total_fees");
                names.push("to_asset_average_slip");
                names.push("to_rune_average_slip");
                names.push("to_trade_average_slip");
                names.push("from_trade_average_slip");
                names.push("synth_mint_average_slip");
                names.push("synth_redeem_average_slip");
                names.push("average_slip");
                names.push("rune_price_usd");
            },
        }
        assert(texts(names@) =~= self.column_names());
        names
    }

    /// The column of the series that `name` names, in the library's own
    /// text. `None` where the series has no such column.
    pub fn column(&self, name: &str) -> (column: Option<&'static str>)
        ensures
            match column {
                Some(own) => own@ == name@ && self.is_column(name@),
                None => !self.is_column(name@),
            },
    {
        let names = self.columns();
        let mut at: usize = 0;
        while at < names.len()
            invariant
                at <= names.len(),
                texts(names@) == self.column_names(),
                forall|i: int| 0 <= i < at ==> self.column_names()[i] != name@,
            decreases names.len() - at,
        {
            assert(texts(names@)[at as int] == names@[at as int]@);
            if same_text(names[at], name) {
                assert(self.column_names()[at as int] == name@);
                return Some(names[at]);
            }
            at = at + 1;
        }
        None
    }

    /// The series that is brought up to date after this one, if any.
    pub fn next(&self) -> (series: Option<Series>)
        ensures
            series == self.following(),
    {
        match self {
            Series::DepthPrice => Some(Series::Earnings),
            Series::Earnings => Some(Series::RunePool),
            Series::RunePool => Some(Series::Swaps),
            Series::Swaps => None,
        }
    }

    /// The call that fetches the window `params` of the series.
    pub fn interface(&self, params: Params) -> (interface: Interface)
        ensures
            interface.resource@ == self.resource_name(),
            interface.params == params,
    {
        Interface::new(String::from_str(self.resource()), params)
    }
}

} // verus!
