//! Natural events for the renderer, sourced from the evidence adapter so
//! classification and source semantics have one implementation.
use vstd::prelude::*;
use crate::evidence::{
    natural_event_records, parse_natural_event_records, record_views,
    EvidenceBearingNaturalEventModel,
};
use crate::types::{NaturalEvent, NaturalEventModel};

verus! {

pub open spec fn event_views(v: Seq<NaturalEvent>) -> Seq<NaturalEventModel> {
    v.map_values(|e: NaturalEvent| e@)
}

/// The renderer records of evidence records.
pub open spec fn record_events(rs: Seq<EvidenceBearingNaturalEventModel>) -> Seq<NaturalEventModel> {
    rs.map_values(|r: EvidenceBearingNaturalEventModel| r.event)
}

/// Renderer records of the four natural-event datasets (earthquakes, fires,
/// EONET events, volcanoes).
pub fn parse_natural_events(earthquakes: &str, fires: &str, eonet: &str, volcanoes: &str) -> (r: Vec<NaturalEvent>)
    ensures
        event_views(r@) == record_events(natural_event_records(earthquakes@, fires@, eonet@, volcanoes@)),
{
    let records = parse_natural_event_records(earthquakes, fires, eonet, volcanoes);
    let ghost models = record_views(records@);
    let mut events: Vec<NaturalEvent> = Vec::new();
    let mut i: usize = 0;
    while i < records.len()
        invariant
            i <= records.len(),
            models == record_views(records@),
            event_views(events@) == record_events(models.subrange(0, i as int)),
        decreases records.len() - i,
    {
        let e = records[i].event.duplicate();
        let ghost before = event_views(events@);
        events.push(e);
        proof {
            assert(event_views(events@) =~= before.push(e@));
            assert(record_events(models.subrange(0, i + 1)) =~= record_events(
                models.subrange(0, i as int),
            ).push(models[i as int].event));
        }
        i = i + 1;
    }
    proof {
        assert(models.subrange(0, models.len() as int) =~= models);
    }
    events
}

} // verus!
