use vstd::prelude::*;

verus! {

/// One point of a seek table. A point whose sample number is all ones is a
/// placeholder; its other two fields are then left at zero.
#[derive(Clone, Copy, Debug, PartialEq, Eq, Structural)]
pub struct SeekPoint {
    /// Sample number of the first sample in the target frame.
    pub sample_number_of_first_sample: u64,
    /// Offset of the target frame from the first frame.
    pub offset: u64,
    /// Number of samples in the target frame.
    pub number_of_samples: u16,
}

impl Default for SeekPoint {
    fn default() -> (point: SeekPoint)
        ensures
            point == (SeekPoint {
                sample_number_of_first_sample: 0,
                offset: 0,
                number_of_samples: 0,
            }),
    {
        SeekPoint { sample_number_of_first_sample: 0, offset: 0, number_of_samples: 0 }
    }
}

/// A seek table. Its view is the sequence of its points.
#[derive(Debug)]
pub struct BlockSeekTable {
    pub seekpoints: Vec<SeekPoint>,
}

impl View for BlockSeekTable {
    type V = Seq<SeekPoint>;

    open spec fn view(&self) -> Seq<SeekPoint> {
        self.seekpoints@
    }
}

impl Default for BlockSeekTable {
    fn default() -> (table: BlockSeekTable)
        ensures
            table@ == Seq::<SeekPoint>::empty(),
    {
        BlockSeekTable { seekpoints: Vec::new() }
    }
}

} // verus!
