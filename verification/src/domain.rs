//! Rating domain model: categories, timeframes, ratings bands, vote
//! aggregates, and the chart built from them.

use vstd::prelude::*;

verus! {

/// Closed set of item classifications. A request that names no category means
/// "all categories"; the two states are distinct cache keys.
#[derive(Clone, Copy, Debug, PartialEq, Eq, Structural)]
pub enum Category {
    ArtAndDesign,
    BookAndReference,
    Development,
    DevicesAndIot,
    Education,
    Entertainment,
    Featured,
    Finance,
    Games,
    HealthAndFitness,
    MusicAndAudio,
    NewsAndWeather,
    Personalisation,
    PhotoAndVideo,
    Productivity,
    Science,
    Security,
    ServerAndCloud,
    Social,
    Utilities,
}

impl Category {
    /// Wire ordinal of this category.
    pub open spec fn spec_repr(self) -> i32 {
        match self {
            Category::ArtAndDesign => 0,
            Category::BookAndReference => 1,
            Category::Development => 2,
            Category::DevicesAndIot => 3,
            Category::Education => 4,
            Category::Entertainment => 5,
            Category::Featured => 6,
            Category::Finance => 7,
            Category::Games => 8,
            Category::HealthAndFitness => 9,
            Category::MusicAndAudio => 10,
            Category::NewsAndWeather => 11,
            Category::Personalisation => 12,
            Category::PhotoAndVideo => 13,
            Category::Productivity => 14,
            Category::Science => 15,
            Category::Security => 16,
            Category::ServerAndCloud => 17,
            Category::Social => 18,
            Category::Utilities => 19,
        }
    }

    /// The category a wire ordinal decodes to, or `None` for an ordinal
    /// outside the closed set.
    pub open spec fn spec_from_repr(v: i32) -> Option<Category> {
        if v == 0 {
            Some(Category::ArtAndDesign)
        } else if v == 1 {
            Some(Category::BookAndReference)
        } else if v == 2 {
            Some(Category::Development)
        } else if v == 3 {
            Some(Category::DevicesAndIot)
        } else if v == 4 {
            Some(Category::Education)
        } else if v == 5 {
            Some(Category::Entertainment)
        } else if v == 6 {
            Some(Category::Featured)
        } else if v == 7 {
            Some(Category::Finance)
        } else if v == 8 {
            Some(Category::Games)
        } else if v == 9 {
            Some(Category::HealthAndFitness)
        } else if v == 10 {
            Some(Category::MusicAndAudio)
        } else if v == 11 {
            Some(Category::NewsAndWeather)
        } else if v == 12 {
            Some(Category::Personalisation)
        } else if v == 13 {
            Some(Category::PhotoAndVideo)
        } else if v == 14 {
            Some(Category::Productivity)
        } else if v == 15 {
            Some(Category::Science)
        } else if v == 16 {
            Some(Category::Security)
        } else if v == 17 {
            Some(Category::ServerAndCloud)
        } else if v == 18 {
            Some(Category::Social)
        } else if v == 19 {
            Some(Category::Utilities)
        } else {
            None
        }
    }

    pub fn repr(self) -> (r: i32)
        ensures
            r == self.spec_repr(),
    {
        match self {
            Category::ArtAndDesign => 0,
            Category::BookAndReference => 1,
            Category::Development => 2,
            Category::DevicesAndIot => 3,
            Category::Education => 4,
            Category::Entertainment => 5,
            Category::Featured => 6,
            Category::Finance => 7,
            Category::Games => 8,
            Category::HealthAndFitness => 9,
            Category::MusicAndAudio => 10,
            Category::NewsAndWeather => 11,
            Category::Personalisation => 12,
            Category::PhotoAndVideo => 13,
            Category::Productivity => 14,
            Category::Science => 15,
            Category::Security => 16,
            Category::ServerAndCloud => 17,
            Category::Social => 18,
            Category::Utilities => 19,
        }
    }

    /// Strict decode: an ordinal outside the closed set yields `None`, which a
    /// request handler must reject as a client error.
    pub fn from_repr(v: i32) -> (r: Option<Category>)
        ensures
            r == Self::spec_from_repr(v),
    {
        if v == 0 {
            Some(Category::ArtAndDesign)
        } else if v == 1 {
            Some(Category::BookAndReference)
        } else if v == 2 {
            Some(Category::Development)
        } else if v == 3 {
            Some(Category::DevicesAndIot)
        } else if v == 4 {
            Some(Category::Education)
        } else if v == 5 {
            Some(Category::Entertainment)
        } else if v == 6 {
            Some(Category::Featured)
        } else if v == 7 {
            Some(Category::Finance)
        } else if v == 8 {
            Some(Category::Games)
        } else if v == 9 {
            Some(Category::HealthAndFitness)
        } else if v == 10 {
            Some(Category::MusicAndAudio)
        } else if v == 11 {
            Some(Category::NewsAndWeather)
        } else if v == 12 {
            Some(Category::Personalisation)
        } else if v == 13 {
            Some(Category::PhotoAndVideo)
        } else if v == 14 {
            Some(Category::Productivity)
        } else if v == 15 {
            Some(Category::Science)
        } else if v == 16 {
            Some(Category::Security)
        } else if v == 17 {
            Some(Category::ServerAndCloud)
        } else if v == 18 {
            Some(Category::Social)
        } else if v == 19 {
            Some(Category::Utilities)
        } else {
            None
        }
    }
}

/// A category's wire ordinal decodes back to that category.
pub proof fn lemma_category_repr_round_trip(c: Category)
    ensures
        Category::spec_from_repr(c.spec_repr()) == Some(c),
{
}

/// Reporting window of a chart. `Unspecified` doubles as the fallback for an
/// unrecognized wire ordinal: timeframe decoding is deliberately lenient,
/// unlike category decoding.
#[derive(Clone, Copy, Debug, PartialEq, Eq, Structural)]
pub enum Timeframe {
    Unspecified,
    Daily,
    Weekly,
    Monthly,
}

impl Timeframe {
    /// Wire ordinal of this timeframe.
    pub open spec fn spec_repr(self) -> i32 {
        match self {
            Timeframe::Unspecified => 0,
            Timeframe::Daily => 1,
            Timeframe::Weekly => 2,
            Timeframe::Monthly => 3,
        }
    }

    /// Whether a wire ordinal names a timeframe of the closed set.
    pub open spec fn spec_is_known_repr(v: i32) -> bool {
        0 <= v <= 3
    }

    /// The timeframe a wire ordinal decodes to: the named window where the
    /// ordinal is known, `Unspecified` otherwise.
    pub open spec fn spec_decode(v: i32) -> Timeframe {
        if v == 1 {
            Timeframe::Daily
        } else if v == 2 {
            Timeframe::Weekly
        } else if v == 3 {
            Timeframe::Monthly
        } else {
            Timeframe::Unspecified
        }
    }

    pub fn repr(self) -> (r: i32)
        ensures
            r == self.spec_repr(),
    {
        match self {
            Timeframe::Unspecified => 0,
            Timeframe::Daily => 1,
            Timeframe::Weekly => 2,
            Timeframe::Monthly => 3,
        }
    }

    /// Lenient decode: an unrecognized ordinal falls back to `Unspecified`
    /// and is never a client error.
    pub fn decode(v: i32) -> (r: Timeframe)
        ensures
            r == Self::spec_decode(v),
            !Self::spec_is_known_repr(v) ==> r == Timeframe::Unspecified,
    {
        if v == 1 {
            Timeframe::Daily
        } else if v == 2 {
            Timeframe::Weekly
        } else if v == 3 {
            Timeframe::Monthly
        } else {
            Timeframe::Unspecified
        }
    }
}

/// A timeframe's wire ordinal decodes back to that timeframe.
pub proof fn lemma_timeframe_repr_round_trip(t: Timeframe)
    ensures
        Timeframe::spec_decode(t.spec_repr()) == t,
{
}

/// Qualitative bucket of an aggregate's votes. The external store derives it;
/// this library only transports the value.
#[derive(Clone, Copy, Debug, PartialEq, Eq, Structural)]
pub enum RatingsBand {
    VeryGood,
    Good,
    Neutral,
    Poor,
    VeryPoor,
    InsufficientVotes,
}

impl RatingsBand {
    /// Wire ordinal of this band.
    pub open spec fn spec_repr(self) -> i32 {
        match self {
            RatingsBand::VeryGood => 0,
            RatingsBand::Good => 1,
            RatingsBand::Neutral => 2,
            RatingsBand::Poor => 3,
            RatingsBand::VeryPoor => 4,
            RatingsBand::InsufficientVotes => 5,
        }
    }

    /// The band a wire ordinal decodes to, or `None` for an ordinal outside
    /// the six fixed values.
    pub open spec fn spec_from_repr(v: i32) -> Option<RatingsBand> {
        if v == 0 {
            Some(RatingsBand::VeryGood)
        } else if v == 1 {
            Some(RatingsBand::Good)
        } else if v == 2 {
            Some(RatingsBand::Neutral)
        } else if v == 3 {
            Some(RatingsBand::Poor)
        } else if v == 4 {
            Some(RatingsBand::VeryPoor)
        } else if v == 5 {
            Some(RatingsBand::InsufficientVotes)
        } else {
            None
        }
    }

    pub fn repr(self) -> (r: i32)
        ensures
            r == self.spec_repr(),
    {
        match self {
            RatingsBand::VeryGood => 0,
            RatingsBand::Good => 1,
            RatingsBand::Neutral => 2,
            RatingsBand::Poor => 3,
            RatingsBand::VeryPoor => 4,
            RatingsBand::InsufficientVotes => 5,
        }
    }

    pub fn from_repr(v: i32) -> (r: Option<RatingsBand>)
        ensures
            r == Self::spec_from_repr(v),
    {
        if v == 0 {
            Some(RatingsBand::VeryGood)
        } else if v == 1 {
            Some(RatingsBand::Good)
        } else if v == 2 {
            Some(RatingsBand::Neutral)
        } else if v == 3 {
            Some(RatingsBand::Poor)
        } else if v == 4 {
            Some(RatingsBand::VeryPoor)
        } else if v == 5 {
            Some(RatingsBand::InsufficientVotes)
        } else {
            None
        }
    }
}

/// A ratings band round-trips losslessly through its wire ordinal.
pub proof fn lemma_band_repr_round_trip(b: RatingsBand)
    ensures
        RatingsBand::spec_from_repr(b.spec_repr()) == Some(b),
{
}

/// Vote aggregate of one rated item, immutable once produced.
pub struct Rating {
    /// Opaque stable identifier of the item.
    pub snap_id: String,
    pub total_votes: u64,
    pub ratings_band: RatingsBand,
}

/// Mathematical value of a [`Rating`].
pub struct RatingView {
    pub snap_id: Seq<char>,
    pub total_votes: u64,
    pub ratings_band: RatingsBand,
}

impl View for Rating {
    type V = RatingView;

    open spec fn view(&self) -> RatingView {
        RatingView {
            snap_id: self.snap_id@,
            total_votes: self.total_votes,
            ratings_band: self.ratings_band,
        }
    }
}

impl Clone for Rating {
    fn clone(&self) -> (r: Self)
        ensures
            r == *self,
    {
        Rating {
            snap_id: self.snap_id.clone(),
            total_votes: self.total_votes,
            ratings_band: self.ratings_band,
        }
    }
}

/// One row of the store's pre-aggregated, pre-ordered answer for a timeframe:
/// the item, its vote aggregate, and its raw score.
pub struct VoteSummary {
    pub snap_id: String,
    /// Raw ordering score in the store's 64-bit wire encoding. The store
    /// orders the rows by it; this library never interprets or re-orders.
    pub raw_rating: u64,
    pub total_votes: u64,
    pub ratings_band: RatingsBand,
}

/// Mathematical value of a [`VoteSummary`].
pub struct VoteSummaryView {
    pub snap_id: Seq<char>,
    pub raw_rating: u64,
    pub total_votes: u64,
    pub ratings_band: RatingsBand,
}

impl View for VoteSummary {
    type V = VoteSummaryView;

    open spec fn view(&self) -> VoteSummaryView {
        VoteSummaryView {
            snap_id: self.snap_id@,
            raw_rating: self.raw_rating,
            total_votes: self.total_votes,
            ratings_band: self.ratings_band,
        }
    }
}

/// One ranked chart entry: the raw score the store ordered by, and the item's
/// vote aggregate.
pub struct ChartData {
    pub raw_rating: u64,
    pub rating: Rating,
}

/// Mathematical value of a [`ChartData`].
pub struct ChartDataView {
    pub raw_rating: u64,
    pub rating: RatingView,
}

impl View for ChartData {
    type V = ChartDataView;

    open spec fn view(&self) -> ChartDataView {
        ChartDataView { raw_rating: self.raw_rating, rating: self.rating@ }
    }
}

impl Clone for ChartData {
    fn clone(&self) -> (r: Self)
        ensures
            r == *self,
    {
        ChartData { raw_rating: self.raw_rating, rating: self.rating.clone() }
    }
}

/// The chart entry a vote aggregate maps to.
pub open spec fn chart_data_of(s: VoteSummaryView) -> ChartDataView {
    ChartDataView {
        raw_rating: s.raw_rating,
        rating: RatingView {
            snap_id: s.snap_id,
            total_votes: s.total_votes,
            ratings_band: s.ratings_band,
        },
    }
}

/// Ranked chart for one timeframe. The order of `data` is the store's rank
/// order and is preserved end-to-end; the library never re-sorts, filters or
/// deduplicates.
pub struct Chart {
    pub timeframe: Timeframe,
    pub data: Vec<ChartData>,
}

/// Mathematical value of a [`Chart`].
pub struct ChartView {
    pub timeframe: Timeframe,
    pub data: Seq<ChartDataView>,
}

impl View for Chart {
    type V = ChartView;

    open spec fn view(&self) -> ChartView {
        ChartView {
            timeframe: self.timeframe,
            data: self.data@.map_values(|cd: ChartData| cd@),
        }
    }
}

impl Clone for Chart {
    fn clone(&self) -> (r: Self)
        ensures
            r@ == self@,
    {
        let mut data: Vec<ChartData> = Vec::new();
        let mut i: usize = 0;
        while i < self.data.len()
            invariant
                i <= self.data@.len(),
                data@.len() == i as int,
                forall|j: int| 0 <= j < i as int ==> data@[j] == self.data@[j],
            decreases self.data@.len() - i,
        {
            data.push(self.data[i].clone());
            i = i + 1;
        }
        let r = Chart { timeframe: self.timeframe, data };
        proof {
            assert(r@.data =~= self@.data);
        }
        r
    }
}

impl Chart {
    /// Chart aggregation: map the store's ordered vote aggregates for a
    /// timeframe, one to one and in place, into ranked chart entries. A pure,
    /// total transform; it cannot fail.
    pub fn new(timeframe: Timeframe, summaries: Vec<VoteSummary>) -> (c: Chart)
        ensures
            c@.timeframe == timeframe,
            c@.data.len() == summaries@.len(),
            forall|i: int| 0 <= i < summaries@.len() ==> c@.data[i] == chart_data_of(summaries@[i]@),
    {
        let mut data: Vec<ChartData> = Vec::new();
        let mut i: usize = 0;
        while i < summaries.len()
            invariant
                i <= summaries@.len(),
                data@.len() == i as int,
                forall|j: int| 0 <= j < i as int ==> data@[j]@ == chart_data_of(summaries@[j]@),
            decreases summaries@.len() - i,
        {
            let s = &summaries[i];
            data.push(
                ChartData {
                    raw_rating: s.raw_rating,
                    rating: Rating {
                        snap_id: s.snap_id.clone(),
                        total_votes: s.total_votes,
                        ratings_band: s.ratings_band,
                    },
                },
            );
            i = i + 1;
        }
        Chart { timeframe, data }
    }
}

/// Aggregation keeps item identifiers distinct: a chart built from a
/// collection with no duplicate identifiers — what the store guarantees of
/// its pre-aggregated output — never holds a duplicate identifier itself.
pub proof fn lemma_aggregation_keeps_ids_distinct(c: ChartView, summaries: Seq<VoteSummaryView>)
    requires
        c.data.len() == summaries.len(),
        forall|i: int| 0 <= i < summaries.len() ==> c.data[i] == chart_data_of(summaries[i]),
        forall|i: int, j: int|
            0 <= i < j < summaries.len() ==> summaries[i].snap_id != summaries[j].snap_id,
    ensures
        forall|i: int, j: int|
            0 <= i < j < c.data.len() ==> c.data[i].rating.snap_id != c.data[j].rating.snap_id,
{
}

} // verus!
