use vstd::prelude::*;

verus! {

/// A row of the scoring tables: the points that a mark earns in an event,
/// for a gender and category, with the mark as text. The mark, a 32-bit
/// float, is carried as its IEEE 754 bit pattern.
#[derive(Default, Debug, Clone, PartialEq)]
pub struct Points {
    pub points: i16,
    pub gender: String,
    pub category: String,
    pub event: String,
    pub mark_bits: u32,
    pub mark_time: String,
}

impl Points {
    /// A row made of the given fields.
    pub fn new(
        points: i16,
        gender: String,
        category: String,
        event: String,
        mark_bits: u32,
        mark_time: String,
    ) -> (p: Self)
        ensures
            p.points == points,
            p.gender == gender,
            p.category == category,
            p.event == event,
            p.mark_bits == mark_bits,
            p.mark_time == mark_time,
    {
        Self { points, gender, category, event, mark_bits, mark_time }
    }
}

/// Whether a points table is for indoor or outdoor events.
#[derive(Debug, Clone, Copy, PartialEq, Eq)]
pub enum Category {
    Indoor,
    Outdoor,
}

} // verus!
