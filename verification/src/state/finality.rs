use vstd::prelude::*;

verus! {

/// Whether no key occurs twice among `records`.
pub open spec fn keys_are_distinct(records: Seq<(Seq<u8>, Seq<u8>)>) -> bool {
    forall|i: int, j: int| 0 <= i < j < records.len() ==> records[i].0 != records[j].0
}

/// One of the collections in which the gadget keeps what it has been shown:
/// signatures, block hashes, block votes or evidence.
///
/// A collection maps raw keys to raw values. It is held as its records, each
/// a key and a value, in the order in which the store hands them out. The
/// control plane never looks inside a record; all it does to a collection is
/// clear it.
#[derive(Debug, Clone, PartialEq, Eq)]
pub struct Collection {
    pub records: Vec<(Vec<u8>, Vec<u8>)>,
}

impl View for Collection {
    type V = Seq<(Seq<u8>, Seq<u8>)>;

    open spec fn view(&self) -> Seq<(Seq<u8>, Seq<u8>)> {
        self.records.deep_view()
    }
}

impl Collection {
    /// Whether the records are those of a mapping: no key occurs twice.
    pub open spec fn well_formed(&self) -> bool {
        keys_are_distinct(self@)
    }

    /// The collection without records.
    pub fn new() -> (collection: Collection)
        ensures
            collection@ == Seq::<(Seq<u8>, Seq<u8>)>::empty(),
            collection.well_formed(),
    {
        let collection = Collection { records: Vec::new() };
        assert(collection@ =~= Seq::<(Seq<u8>, Seq<u8>)>::empty());
        collection
    }

    /// Removes every record.
    pub fn clear(&mut self)
        ensures
            final(self)@ == Seq::<(Seq<u8>, Seq<u8>)>::empty(),
            final(self).well_formed(),
    {
        self.records.clear();
        assert(self@ =~= Seq::<(Seq<u8>, Seq<u8>)>::empty());
    }
}

} // verus!
