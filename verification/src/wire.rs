//! Wire-facing message types of the `GetChart` method and their conversions
//! from the domain model.
//!
//! Enumerations travel as integer ordinals, and the raw score travels in its
//! 64-bit encoding; the transport binding turns these messages into the
//! transport's own frames at the process edge.

use vstd::prelude::*;

use crate::domain::{Category, ChartData, ChartDataView, Rating, RatingView, RatingsBand};

verus! {

/// Wire form of [`RatingsBand`]: the same six fixed values.
#[derive(Clone, Copy, Debug, PartialEq, Eq, Structural)]
pub enum PbRatingsBand {
    VeryGood,
    Good,
    Neutral,
    Poor,
    VeryPoor,
    InsufficientVotes,
}

/// The wire band a domain band maps to.
pub open spec fn pb_band_of(rb: RatingsBand) -> PbRatingsBand {
    match rb {
        RatingsBand::VeryGood => PbRatingsBand::VeryGood,
        RatingsBand::Good => PbRatingsBand::Good,
        RatingsBand::Neutral => PbRatingsBand::Neutral,
        RatingsBand::Poor => PbRatingsBand::Poor,
        RatingsBand::VeryPoor => PbRatingsBand::VeryPoor,
        RatingsBand::InsufficientVotes => PbRatingsBand::InsufficientVotes,
    }
}

impl From<RatingsBand> for PbRatingsBand {
    fn from(rb: RatingsBand) -> (r: Self) {
        match rb {
            RatingsBand::VeryGood => PbRatingsBand::VeryGood,
            RatingsBand::Good => PbRatingsBand::Good,
            RatingsBand::Neutral => PbRatingsBand::Neutral,
            RatingsBand::Poor => PbRatingsBand::Poor,
            RatingsBand::VeryPoor => PbRatingsBand::VeryPoor,
            RatingsBand::InsufficientVotes => PbRatingsBand::InsufficientVotes,
        }
    }
}

impl vstd::std_specs::convert::FromSpecImpl<RatingsBand> for PbRatingsBand {
    open spec fn obeys_from_spec() -> bool {
        true
    }

    open spec fn from_spec(rb: RatingsBand) -> Self {
        pb_band_of(rb)
    }
}

/// Wire form of a rating, enriched with the resolved display name.
pub struct PbRating {
    pub snap_id: String,
    pub total_votes: u64,
    /// Ordinal of the six-valued ratings band.
    pub ratings_band: i32,
    pub snap_name: String,
}

/// Mathematical value of a [`PbRating`].
pub struct PbRatingView {
    pub snap_id: Seq<char>,
    pub total_votes: u64,
    pub ratings_band: i32,
    pub snap_name: Seq<char>,
}

impl View for PbRating {
    type V = PbRatingView;

    open spec fn view(&self) -> PbRatingView {
        PbRatingView {
            snap_id: self.snap_id@,
            total_votes: self.total_votes,
            ratings_band: self.ratings_band,
            snap_name: self.snap_name@,
        }
    }
}

/// The wire rating a domain rating and a resolved name map to.
pub open spec fn pb_rating_of(rating: RatingView, snap_name: Seq<char>) -> PbRatingView {
    PbRatingView {
        snap_id: rating.snap_id,
        total_votes: rating.total_votes,
        ratings_band: rating.ratings_band.spec_repr(),
        snap_name,
    }
}

impl PbRating {
    /// Pair a rating with its resolved display name; the band travels as its
    /// ordinal.
    pub fn from_rating_and_snap_name(rating: Rating, snap_name: String) -> (r: Self)
        ensures
            r@ == pb_rating_of(rating@, snap_name@),
    {
        PbRating {
            snap_id: rating.snap_id,
            total_votes: rating.total_votes,
            ratings_band: rating.ratings_band.repr(),
            snap_name,
        }
    }
}

impl Rating {
    /// Read a rating back from its wire form, dropping the display name. The
    /// band ordinal must be one of the six known values.
    pub fn from(r: PbRating) -> (s: Rating)
        requires
            RatingsBand::spec_from_repr(r.ratings_band) is Some,
        ensures
            s@.snap_id == r@.snap_id,
            s@.total_votes == r@.total_votes,
            Some(s@.ratings_band) == RatingsBand::spec_from_repr(r.ratings_band),
    {
        let band = RatingsBand::from_repr(r.ratings_band);
        match band {
            Some(ratings_band) => Rating {
                snap_id: r.snap_id,
                total_votes: r.total_votes,
                ratings_band,
            },
            None => vstd::pervasive::unreached(),
        }
    }
}

/// Wire form of one ranked chart entry.
pub struct PbChartData {
    /// Raw ordering score in its 64-bit wire encoding, carried unchanged.
    pub raw_rating: u64,
    pub rating: Option<PbRating>,
}

/// Mathematical value of a [`PbChartData`].
pub struct PbChartDataView {
    pub raw_rating: u64,
    pub rating: Option<PbRatingView>,
}

impl View for PbChartData {
    type V = PbChartDataView;

    open spec fn view(&self) -> PbChartDataView {
        PbChartDataView {
            raw_rating: self.raw_rating,
            rating: match self.rating {
                Some(r) => Some(r@),
                None => None,
            },
        }
    }
}

/// The wire entry a chart entry and a resolved name map to.
pub open spec fn pb_chart_data_of(cd: ChartDataView, snap_name: Seq<char>) -> PbChartDataView {
    PbChartDataView {
        raw_rating: cd.raw_rating,
        rating: Some(pb_rating_of(cd.rating, snap_name)),
    }
}

impl PbChartData {
    /// Pair one chart entry with its resolved display name.
    pub fn from_chart_data_and_snap_name(chart_data: ChartData, snap_name: String) -> (r: Self)
        ensures
            r@ == pb_chart_data_of(chart_data@, snap_name@),
    {
        PbChartData {
            raw_rating: chart_data.raw_rating,
            rating: Some(PbRating::from_rating_and_snap_name(chart_data.rating, snap_name)),
        }
    }
}

/// Wire form of a `GetChart` request: a timeframe ordinal and an optional
/// category ordinal.
#[derive(Clone, Copy, Debug, PartialEq, Eq, Structural)]
pub struct GetChartRequest {
    pub timeframe: i32,
    pub category: Option<i32>,
}

/// Wire form of a successful `GetChart` response: the decoded timeframe and
/// category as ordinals, and the enriched entries in the chart's own order.
pub struct GetChartResponse {
    pub timeframe: i32,
    pub category: Option<i32>,
    pub ordered_chart_data: Vec<PbChartData>,
}

/// Mathematical value of a [`GetChartResponse`].
pub struct GetChartResponseView {
    pub timeframe: i32,
    pub category: Option<i32>,
    pub ordered_chart_data: Seq<PbChartDataView>,
}

impl View for GetChartResponse {
    type V = GetChartResponseView;

    open spec fn view(&self) -> GetChartResponseView {
        GetChartResponseView {
            timeframe: self.timeframe,
            category: self.category,
            ordered_chart_data: self.ordered_chart_data@.map_values(|cd: PbChartData| cd@),
        }
    }
}

} // verus!
