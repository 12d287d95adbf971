use vstd::prelude::*;

verus! {

/// Configuration of the finality gadget.
#[derive(Debug, PartialEq, Eq)]
pub struct Config {
    /// Identifier of the consumer chain that the gadget serves.
    pub consumer_id: String,
    /// Height of the consumer chain's block at which the gadget is activated.
    pub activated_height: u64,
    /// Interval, in blocks, at which block heights are committed.
    pub commit_block_height_interval: u64,
}

/// Mathematical value of a [`Config`].
pub struct ConfigView {
    pub consumer_id: Seq<char>,
    pub activated_height: u64,
    pub commit_block_height_interval: u64,
}

impl View for Config {
    type V = ConfigView;

    open spec fn view(&self) -> ConfigView {
        ConfigView {
            consumer_id: self.consumer_id@,
            activated_height: self.activated_height,
            commit_block_height_interval: self.commit_block_height_interval,
        }
    }
}

impl Clone for Config {
    fn clone(&self) -> (copy: Config)
        ensures
            copy == *self,
    {
        Config {
            consumer_id: self.consumer_id.clone(),
            activated_height: self.activated_height,
            commit_block_height_interval: self.commit_block_height_interval,
        }
    }
}

} // verus!
