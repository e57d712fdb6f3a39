use crate::fish_data::FishData;
use vstd::prelude::*;

verus! {

/// What chrono reads from `s` in the form `%Y-%m-%d %H:%M:%S`, as UTC seconds
/// since the epoch; `None` when `s` is not in that form.
pub uninterp spec fn datetime_seconds(s: Seq<char>) -> Option<i64>;

/// Relies on chrono's `NaiveDateTime::parse_from_str` with the format
/// `%Y-%m-%d %H:%M:%S`, which fails on text not in that form, and on
/// `NaiveDateTime::and_utc` with `DateTime::timestamp`, which count the
/// seconds since the epoch; the result depends on the text alone.
#[verifier::external_body]
fn parse_datetime(s: &str) -> (r: Option<i64>)
    ensures
        r == datetime_seconds(s@),
{
    match chrono::NaiveDateTime::parse_from_str(s, "%Y-%m-%d %H:%M:%S") {
        Ok(d) => Some(d.and_utc().timestamp()),
        Err(_) => None,
    }
}

/// A date and time as the boardings feed writes it: `2021-03-26 05:05:00`.
pub struct DateTimeProxy(pub String);

impl DateTimeProxy {
    pub fn as_str(&self) -> (r: &str)
        ensures
            r@ == self.0@,
    {
        self.0.as_str()
    }

    /// The date and time written here, in seconds since the epoch.
    pub fn to_datetime(&self) -> (r: Option<i64>)
        ensures
            r == datetime_seconds(self.0@),
    {
        parse_datetime(self.as_str())
    }
}

/// A date as the boardings feed writes it: `2021-03-26`.
pub struct DateProxy(pub String);

impl DateProxy {
    pub fn as_str(&self) -> (r: &str)
        ensures
            r@ == self.0@,
    {
        self.0.as_str()
    }
}

/// One observation of a bus journey at a stop. Times are in seconds since
/// the epoch.
pub struct Bandata {
    pub boardings: Option<u32>,
    pub alightings: Option<u32>,
    pub arr_time_obs_pub_trans: Option<i64>,
    pub dep_time_tar_pub_trans: Option<i64>,
    pub journey_number: u16,
    pub line_number: u16,
    pub operating_day_date: DateProxy,
    pub passengers_onboard: Option<i16>,
}

/// The total boardings of a journey and its earliest departure.
#[derive(Clone, Copy, Debug, PartialEq, Eq, Structural)]
pub struct Journey {
    pub boardings: u32,
    pub departure_time: Option<i64>,
}

/// The journeys seen so far, by number, in the order first seen, with the
/// largest total boardings and the earliest and latest departures.
pub struct Journeys {
    pub journeys: Vec<(u16, Journey)>,
    pub max_boardings: u32,
    pub earliest_departure_time: Option<i64>,
    pub latest_departure_time: Option<i64>,
}

/// The earlier of two optional times; a missing one gives way.
pub open spec fn min_date_spec(left: Option<i64>, right: Option<i64>) -> Option<i64> {
    match (left, right) {
        (Some(l), Some(r)) => Some(if l <= r { l } else { r }),
        (Some(l), None) => Some(l),
        (None, r) => r,
    }
}

/// The later of two optional times; a missing one gives way.
pub open spec fn max_date_spec(left: Option<i64>, right: Option<i64>) -> Option<i64> {
    match (left, right) {
        (Some(l), Some(r)) => Some(if l >= r { l } else { r }),
        (Some(l), None) => Some(l),
        (None, r) => r,
    }
}

/// `t` is no earlier than `earliest` and no later than `latest`.
pub open spec fn within(t: i64, earliest: Option<i64>, latest: Option<i64>) -> bool {
    &&& earliest matches Some(e) && e <= t
    &&& latest matches Some(l) && t <= l
}

/// The earlier of two optional times; a missing one gives way.
pub fn min_date(left: Option<i64>, right: Option<i64>) -> (r: Option<i64>)
    ensures
        r == min_date_spec(left, right),
{
    match (left, right) {
        (Some(l), Some(r)) => Some(if l <= r { l } else { r }),
        (Some(l), None) => Some(l),
        (None, r) => r,
    }
}

fn max_date(left: Option<i64>, right: Option<i64>) -> (r: Option<i64>)
    ensures
        r == max_date_spec(left, right),
{
    match (left, right) {
        (Some(l), Some(r)) => Some(if l >= r { l } else { r }),
        (Some(l), None) => Some(l),
        (None, r) => r,
    }
}

impl Bandata {
    pub open spec fn boardings_spec(self) -> u32 {
        match self.boardings {
            Some(b) => b,
            None => 0,
        }
    }

    /// The boardings seen, zero when none were counted.
    pub fn boardings(&self) -> (r: u32)
        ensures
            r == self.boardings_spec(),
    {
        match self.boardings {
            Some(b) => b,
            None => 0,
        }
    }
}

impl Journey {
    /// A journey seen once, in `bandata`.
    pub fn from_bandata(bandata: &Bandata) -> (r: Journey)
        ensures
            r == (Journey {
                boardings: bandata.boardings_spec(),
                departure_time: bandata.dep_time_tar_pub_trans,
            }),
    {
        Journey { boardings: bandata.boardings(), departure_time: bandata.dep_time_tar_pub_trans }
    }

    /// `self` seen once more, in `bandata`: the boardings add up
    /// (saturating), the departure is the earlier one.
    pub open spec fn updated(self, bandata: Bandata) -> Journey {
        Journey {
            boardings: self.boardings.saturating_add(bandata.boardings_spec()),
            departure_time: min_date_spec(self.departure_time, bandata.dep_time_tar_pub_trans),
        }
    }

    pub fn update(&mut self, bandata: &Bandata)
        ensures
            *final(self) == old(self).updated(*bandata),
    {
        self.boardings = self.boardings.saturating_add(bandata.boardings());
        self.departure_time = min_date(self.departure_time, bandata.dep_time_tar_pub_trans);
    }
}

/// The smallest size share a fish keeps, in thousandths.
pub const MIN_SIZE: u64 = 100;

/// Journeys whose size share is below this give no fish.
pub const MIN_KEPT_SIZE: u64 = 200;

/// The first index from `i` on of journey `number`, or `-1`.
pub open spec fn journey_index(journeys: Seq<(u16, Journey)>, number: u16, i: int) -> int
    decreases journeys.len() - i,
{
    if i < 0 || i >= journeys.len() {
        -1
    } else if journeys[i].0 == number {
        i
    } else {
        journey_index(journeys, number, i + 1)
    }
}

proof fn lemma_journey_index_range(journeys: Seq<(u16, Journey)>, number: u16, i: int)
    requires
        0 <= i,
    ensures
        journey_index(journeys, number, i) == -1 || (i <= journey_index(journeys, number, i)
            < journeys.len() && journeys[journey_index(journeys, number, i)].0 == number),
        journey_index(journeys, number, i) == -1 ==> forall|k: int|
            i <= k < journeys.len() ==> #[trigger] journeys[k].0 != number,
    decreases journeys.len() - i,
{
    if i < journeys.len() && journeys[i].0 != number {
        lemma_journey_index_range(journeys, number, i + 1);
    }
}

/// `value` kept within `[MIN_SIZE, 1000]`.
pub open spec fn clamp_spec(value: int) -> int {
    if value < MIN_SIZE {
        MIN_SIZE as int
    } else if value > 1000 {
        1000
    } else {
        value
    }
}

/// `value` kept within `[MIN_SIZE, 1000]` (a tenth and one, in thousandths).
pub fn clamp(value: u64) -> (r: u64)
    ensures
        r == clamp_spec(value as int),
{
    if value < MIN_SIZE {
        MIN_SIZE
    } else if value > 1000 {
        1000
    } else {
        value
    }
}

/// The journey `item` belongs to in `journeys`, after `item` is counted.
pub open spec fn journey_after(journeys: Seq<(u16, Journey)>, item: Bandata) -> Journey {
    let k = journey_index(journeys, item.journey_number, 0);
    if k >= 0 {
        journeys[k].1.updated(item)
    } else {
        Journey { boardings: item.boardings_spec(), departure_time: item.dep_time_tar_pub_trans }
    }
}

/// `journeys` after `item` is counted: its journey is updated, or added at
/// the end when new.
pub open spec fn journeys_after(journeys: Seq<(u16, Journey)>, item: Bandata) -> Seq<(u16, Journey)> {
    let k = journey_index(journeys, item.journey_number, 0);
    if k >= 0 {
        journeys.update(k, (item.journey_number, journey_after(journeys, item)))
    } else {
        journeys.push((item.journey_number, journey_after(journeys, item)))
    }
}

/// What a `Journeys` holds after `item` is counted in `v`.
pub open spec fn counted(
    v: (Seq<(u16, Journey)>, u32, Option<i64>, Option<i64>),
    item: Bandata,
) -> (Seq<(u16, Journey)>, u32, Option<i64>, Option<i64>) {
    let journey = journey_after(v.0, item);
    (
        journeys_after(v.0, item),
        if v.1 >= journey.boardings {
            v.1
        } else {
            journey.boardings
        },
        min_date_spec(v.2, journey.departure_time),
        max_date_spec(v.3, item.dep_time_tar_pub_trans),
    )
}

/// What a `Journeys` holds after all of `items` are counted, in order, from
/// none.
pub open spec fn counted_all(items: Seq<Bandata>) -> (
    Seq<(u16, Journey)>,
    u32,
    Option<i64>,
    Option<i64>,
)
    decreases items.len(),
{
    if items.len() == 0 {
        (Seq::empty(), 0, None, None)
    } else {
        counted(counted_all(items.drop_last()), items.last())
    }
}

impl View for Journeys {
    type V = (Seq<(u16, Journey)>, u32, Option<i64>, Option<i64>);

    open spec fn view(&self) -> (Seq<(u16, Journey)>, u32, Option<i64>, Option<i64>) {
        (
            self.journeys@,
            self.max_boardings,
            self.earliest_departure_time,
            self.latest_departure_time,
        )
    }
}

impl Journeys {
    pub open spec fn wf(self) -> bool {
        &&& forall|i: int, j: int|
            0 <= i < j < self.journeys@.len() ==> #[trigger] self.journeys@[i].0
                != #[trigger] self.journeys@[j].0
        &&& forall|i: int|
            0 <= i < self.journeys@.len() ==> (#[trigger] self.journeys@[i]).1.boardings
                <= self.max_boardings
        &&& forall|i: int|
            0 <= i < self.journeys@.len() ==> ((#[trigger] self.journeys@[i]).1.departure_time matches Some(
                t,
            ) ==> within(t, self.earliest_departure_time, self.latest_departure_time))
        &&& self.earliest_departure_time.is_some() == self.latest_departure_time.is_some()
        &&& self.earliest_departure_time matches Some(e) ==> self.latest_departure_time matches Some(
            l,
        ) && e <= l
    }

    /// Seconds from the earliest to the latest departure.
    pub open spec fn duration_spec(self) -> int {
        self.latest_departure_time.unwrap() - self.earliest_departure_time.unwrap()
    }

    /// Seconds from `journey`'s departure to the latest departure; zero for
    /// a journey without one.
    pub open spec fn age_spec(self, journey: Journey) -> int {
        match journey.departure_time {
            Some(t) => self.latest_departure_time.unwrap() - t,
            None => 0,
        }
    }

    /// The speed factor of `journey`'s fish, in thousandths: its age as a
    /// share of the whole span; zero when the span is empty.
    pub open spec fn speed_share(self, journey: Journey) -> int {
        if self.duration_spec() > 0 {
            self.age_spec(journey) * 1000 / self.duration_spec()
        } else {
            0
        }
    }

    /// The size factor of `journey`'s fish, in thousandths: its boardings
    /// as a share of the largest, clamped.
    pub open spec fn size_share(self, journey: Journey) -> int {
        clamp_spec(
            if self.max_boardings == 0 {
                0
            } else {
                journey.boardings * 1000 / self.max_boardings as int
            },
        )
    }

    /// The journeys of `journeys` that are large enough to give a fish, in
    /// order.
    pub open spec fn kept(self, journeys: Seq<(u16, Journey)>) -> Seq<Journey>
        decreases journeys.len(),
    {
        if journeys.len() == 0 {
            Seq::empty()
        } else {
            let earlier = self.kept(journeys.drop_last());
            if self.size_share(journeys.last().1) >= MIN_KEPT_SIZE {
                earlier.push(journeys.last().1)
            } else {
                earlier
            }
        }
    }

    /// Seconds from the earliest to the latest departure.
    pub fn duration_in_seconds(&self) -> (r: u64)
        requires
            self.wf(),
            self.earliest_departure_time.is_some(),
        ensures
            r == self.duration_spec(),
    {
        let earliest = self.earliest_departure_time.unwrap();
        let latest = self.latest_departure_time.unwrap();
        ((latest as i128) - (earliest as i128)) as u64
    }

    /// Seconds from `journey`'s departure to the latest departure; zero
    /// for a journey without one.
    pub fn journey_age_in_seconds(&self, journey: &Journey) -> (r: u64)
        requires
            self.wf(),
            journey.departure_time matches Some(t) ==> within(
                t,
                self.earliest_departure_time,
                self.latest_departure_time,
            ),
        ensures
            r == self.age_spec(*journey),
            r <= self.duration_spec() || journey.departure_time.is_none(),
    {
        match journey.departure_time {
            Some(t) => {
                let latest = self.latest_departure_time.unwrap();
                ((latest as i128) - (t as i128)) as u64
            },
            None => 0,
        }
    }

    /// A goldfish per journey whose size share is at least
    /// `MIN_KEPT_SIZE`, in order, scaled by its size and speed shares.
    pub fn to_school(&self) -> (r: Vec<FishData>)
        requires
            self.wf(),
        ensures
            r@.len() == self.kept(self.journeys@).len(),
            forall|i: int|
                0 <= i < r@.len() ==> {
                    let journey = self.kept(self.journeys@)[i];
                    &&& (#[trigger] r@[i]).fish@ == "goldfish"@
                    &&& r@[i].size == self.size_share(journey)
                    &&& r@[i].speed == self.speed_share(journey)
                    &&& r@[i].speed <= 1000
                    &&& r@[i].bubbles == 1000
                },
    {
        let mut fishes: Vec<FishData> = Vec::new();
        let mut i: usize = 0;
        while i < self.journeys.len()
            invariant
                self.wf(),
                i <= self.journeys@.len(),
                fishes@.len() == self.kept(self.journeys@.subrange(0, i as int)).len(),
                forall|k: int|
                    0 <= k < fishes@.len() ==> {
                        let journey = self.kept(self.journeys@.subrange(0, i as int))[k];
                        &&& (#[trigger] fishes@[k]).fish@ == "goldfish"@
                        &&& fishes@[k].size == self.size_share(journey)
                        &&& fishes@[k].speed == self.speed_share(journey)
                        &&& fishes@[k].speed <= 1000
                        &&& fishes@[k].bubbles == 1000
                    },
            decreases self.journeys@.len() - i,
        {
            let journey = self.journeys[i].1;
            assert(self.journeys@[i as int].1 == journey);
            let share: u64 = if self.max_boardings == 0 {
                0
            } else {
                (journey.boardings as u64) * 1000 / (self.max_boardings as u64)
            };
            let size = clamp(share);
            if size >= MIN_KEPT_SIZE {
                let speed = self.speed_of(&journey);
                fishes.push(
                    FishData { fish: "goldfish".to_owned(), size, speed, bubbles: 1000 },
                );
            }
            assert(self.journeys@.subrange(0, i + 1).drop_last() =~= self.journeys@.subrange(
                0,
                i as int,
            ));
            i = i + 1;
        }
        assert(self.journeys@.subrange(0, self.journeys@.len() as int) =~= self.journeys@);
        fishes
    }

    fn speed_of(&self, journey: &Journey) -> (r: u64)
        requires
            self.wf(),
            journey.departure_time matches Some(t) ==> within(
                t,
                self.earliest_departure_time,
                self.latest_departure_time,
            ),
        ensures
            r == self.speed_share(*journey),
            r <= 1000,
    {
        if self.earliest_departure_time.is_none() {
            return 0;
        }
        let duration = self.duration_in_seconds();
        if duration == 0 {
            return 0;
        }
        let age = self.journey_age_in_seconds(journey);
        assert(age <= duration);
        assert((age as int) * 1000 / (duration as int) <= 1000) by (nonlinear_arith)
            requires
                0 <= age <= duration,
                duration > 0,
        ;
        ((age as u128) * 1000 / (duration as u128)) as u64
    }

    /// The journeys of all of `items`, counted in order.
    pub fn from_items(items: &Vec<Bandata>) -> (r: Journeys)
        ensures
            r.wf(),
            r@ == counted_all(items@),
            r.journeys@.len() <= items@.len(),
            forall|i: int|
                0 <= i < items@.len() ==> journey_index(
                    r.journeys@,
                    #[trigger] items@[i].journey_number,
                    0,
                ) >= 0,
    {
        let mut journeys = Journeys::new();
        let mut i: usize = 0;
        assert(items@.subrange(0, 0) =~= Seq::<Bandata>::empty());
        while i < items.len()
            invariant
                i <= items@.len(),
                journeys.wf(),
                journeys@ == counted_all(items@.subrange(0, i as int)),
                journeys.journeys@.len() <= i,
                forall|k: int|
                    0 <= k < i ==> journey_index(
                        journeys.journeys@,
                        #[trigger] items@[k].journey_number,
                        0,
                    ) >= 0,
            decreases items@.len() - i,
        {
            let ghost before = journeys.journeys@;
            let item = &items[i];
            journeys.add(item);
            proof {
                let n0 = item.journey_number;
                lemma_journey_index_range(before, n0, 0);
                lemma_journey_index_range(journeys.journeys@, n0, 0);
                let j0 = journey_index(before, n0, 0);
                if j0 >= 0 {
                    assert(journeys.journeys@[j0].0 == n0);
                } else {
                    assert(journeys.journeys@[before.len() as int].0 == n0);
                }
                assert forall|k: int| 0 <= k < i + 1 implies journey_index(
                    journeys.journeys@,
                    #[trigger] items@[k].journey_number,
                    0,
                ) >= 0 by {
                    let n = items@[k].journey_number;
                    lemma_journey_index_range(before, n, 0);
                    lemma_journey_index_range(journeys.journeys@, n, 0);
                    if k < i {
                        let j = journey_index(before, n, 0);
                        assert(journeys.journeys@[j].0 == n);
                    }
                }
            }
            assert(items@.subrange(0, i + 1).drop_last() =~= items@.subrange(0, i as int));
            i = i + 1;
        }
        assert(items@.subrange(0, items@.len() as int) =~= items@);
        journeys
    }

    /// No journeys yet.
    pub fn new() -> (r: Journeys)
        ensures
            r.wf(),
            r.journeys@.len() == 0,
            r.max_boardings == 0,
            r.earliest_departure_time.is_none(),
            r.latest_departure_time.is_none(),
    {
        Journeys {
            journeys: Vec::new(),
            max_boardings: 0,
            earliest_departure_time: None,
            latest_departure_time: None,
        }
    }

    /// Counts `item` in its journey, and updates the largest boardings and
    /// the earliest and latest departures.
    pub fn add(&mut self, item: &Bandata)
        requires
            old(self).wf(),
        ensures
            final(self).wf(),
            final(self)@ == counted(old(self)@, *item),
    {
        proof {
            lemma_journey_index_range(self.journeys@, item.journey_number, 0);
        }
        let journey = match self.index_of(item.journey_number) {
            Some(k) => {
                self.journeys[k].1.update(item);
                self.journeys[k].1
            },
            None => self.insert(item.journey_number, Journey::from_bandata(item)),
        };
        if journey.boardings > self.max_boardings {
            self.max_boardings = journey.boardings;
        }
        self.earliest_departure_time = min_date(
            self.earliest_departure_time,
            journey.departure_time,
        );
        self.latest_departure_time = max_date(
            self.latest_departure_time,
            item.dep_time_tar_pub_trans,
        );
        assert(self.journeys@ == journeys_after(old(self).journeys@, *item));
        assert forall|i: int|
            0 <= i < self.journeys@.len() implies ((#[trigger] self.journeys@[i]).1.departure_time matches Some(
            t,
        ) ==> within(t, self.earliest_departure_time, self.latest_departure_time)) by {
            if i < old(self).journeys@.len() {
                match old(self).journeys@[i].1.departure_time {
                    Some(t0) => {
                        assert(within(
                            t0,
                            old(self).earliest_departure_time,
                            old(self).latest_departure_time,
                        ));
                    },
                    None => {},
                }
            }
        }
    }

    /// The index of journey `number`.
    fn index_of(&self, number: u16) -> (r: Option<usize>)
        ensures
            match r {
                Some(k) => k as int == journey_index(self.journeys@, number, 0),
                None => journey_index(self.journeys@, number, 0) < 0,
            },
    {
        let mut i: usize = 0;
        while i < self.journeys.len()
            invariant
                i <= self.journeys@.len(),
                journey_index(self.journeys@, number, 0) == journey_index(
                    self.journeys@,
                    number,
                    i as int,
                ),
            decreases self.journeys@.len() - i,
        {
            if self.journeys[i].0 == number {
                return Some(i);
            }
            i = i + 1;
        }
        None
    }

    /// Adds journey `number` at the end and hands it back.
    fn insert(&mut self, number: u16, journey: Journey) -> (r: Journey)
        ensures
            final(self).journeys@ == old(self).journeys@.push((number, journey)),
            final(self).max_boardings == old(self).max_boardings,
            final(self).earliest_departure_time == old(self).earliest_departure_time,
            final(self).latest_departure_time == old(self).latest_departure_time,
            r == journey,
    {
        self.journeys.push((number, journey));
        journey
    }
}

} // verus!
