use crate::fish_data::FishData;
use crate::fish_legend::FishLegend;
use crate::input_data::InputData;
use crate::legend::Legend;
use vstd::prelude::*;

verus! {

/// One row of a species table: `count` fish of species `fish`, with the
/// factors of each (in thousandths) and what the species stands for.
pub struct Record {
    pub fish: String,
    pub count: u64,
    pub size: u64,
    pub speed: u64,
    pub bubbles: u64,
    pub description: String,
}

/// The feed record a row gives each of its fish.
pub open spec fn record_fish(record: Record) -> FishData {
    FishData { fish: record.fish, size: record.size, speed: record.speed, bubbles: record.bubbles }
}

/// The feed records of `records`: each row's record, as many times as its
/// count, row after row.
pub open spec fn school_of(records: Seq<Record>) -> Seq<FishData>
    decreases records.len(),
{
    if records.len() == 0 {
        Seq::empty()
    } else {
        school_of(records.drop_last()) + Seq::new(
            records.last().count as nat,
            |_i: int| record_fish(records.last()),
        )
    }
}

/// The legend line of a row.
pub open spec fn record_legend(record: Record) -> FishLegend {
    FishLegend { fish: record.fish, description: record.description }
}

/// A feed from the rows of a species table: the rows' fish, and a legend
/// with `description` (empty when missing) and a line per row.
pub fn input_data_from_records(records: &Vec<Record>, description: Option<String>) -> (r:
    InputData)
    ensures
        r.school@ == school_of(records@),
        r.legend matches Some(legend) && legend.description@ == match description {
            Some(d) => d@,
            None => Seq::<char>::empty(),
        } && legend.fish_legends@.len() == records@.len() && forall|i: int|
            0 <= i < records@.len() ==> #[trigger] legend.fish_legends@[i] == record_legend(
                records@[i],
            ),
{
    let mut school: Vec<FishData> = Vec::new();
    let mut legends: Vec<FishLegend> = Vec::new();
    let mut i: usize = 0;
    assert(records@.subrange(0, 0) =~= Seq::<Record>::empty());
    while i < records.len()
        invariant
            i <= records@.len(),
            school@ == school_of(records@.subrange(0, i as int)),
            legends@.len() == i,
            forall|k: int| 0 <= k < i ==> #[trigger] legends@[k] == record_legend(records@[k]),
        decreases records@.len() - i,
    {
        let record = &records[i];
        legends.push(
            FishLegend { fish: record.fish.clone(), description: record.description.clone() },
        );
        let ghost before = school@;
        let mut j: u64 = 0;
        while j < record.count
            invariant
                j <= record.count,
                school@ == before + Seq::new(j as nat, |_k: int| record_fish(*record)),
            decreases record.count - j,
        {
            school.push(
                FishData {
                    fish: record.fish.clone(),
                    size: record.size,
                    speed: record.speed,
                    bubbles: record.bubbles,
                },
            );
            assert(school@ =~= before + Seq::new((j + 1) as nat, |_k: int| record_fish(*record)));
            j = j + 1;
        }
        assert(records@.subrange(0, i + 1).drop_last() =~= records@.subrange(0, i as int));
        assert(records@.subrange(0, i + 1).last() == *record);
        i = i + 1;
    }
    assert(records@.subrange(0, records@.len() as int) =~= records@);
    let description = match description {
        Some(d) => d,
        None => String::new(),
    };
    InputData { legend: Some(Legend { description, fish_legends: legends }), school }
}

} // verus!
