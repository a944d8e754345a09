//! The spiller: the state an operator keeps to move data out of memory to
//! storage and back.
use opendal::Operator;
use vstd::prelude::*;
use crate::expression::DataBlock;

verus! {

/// The storage operator that spilled data is written through.
#[verifier::external_type_specification]
#[verifier::external_body]
pub struct ExOperator(Operator);

/// The operators that spill; only hash joins do so far.
#[derive(Clone, Copy, Debug, PartialEq, Eq, Structural)]
enum SpillerType {
    HashJoin,
}

/// Spiller configuration: where spilled data is written.
#[derive(Debug)]
pub struct SpillerConfig {
    location_prefix: String,
}

impl SpillerConfig {
    /// The prefix of the locations spilled data is written to.
    pub closed spec fn spec_location_prefix(&self) -> Seq<char> {
        self.location_prefix@
    }

    /// A configuration that writes under `location_prefix`.
    pub fn create(location_prefix: String) -> (c: SpillerConfig)
        ensures
            c.spec_location_prefix() == location_prefix@,
    {
        Self { location_prefix }
    }
}

/// Spiller state.
#[derive(Debug)]
pub struct SpillerState {}

/// The state of an operator that spills data from memory: it collects the
/// data to spill, partitions it as the operator says, serializes it, and
/// writes it through the storage operator.
pub struct Spiller {
    operator: Operator,
    config: SpillerConfig,
    spiller_type: SpillerType,
    spiller_state: SpillerState,
    /// Blocks to spill.
    pub(crate) input_data: Vec<DataBlock>,
    /// The partitions there are.
    pub(crate) partition_set: Vec<u8>,
    /// The partitions spilled so far.
    pub(crate) spilled_partition_set: Vec<u8>,
    /// Blocks by partition id.
    pub(crate) partitions: Vec<(u8, DataBlock)>,
}

impl Spiller {
    /// The storage operator spilled data is written through.
    pub closed spec fn spec_operator(&self) -> Operator {
        self.operator
    }

    /// Where spilled data is written.
    pub closed spec fn spec_location_prefix(&self) -> Seq<char> {
        self.config.spec_location_prefix()
    }

    /// The blocks waiting to be spilled.
    pub closed spec fn spec_input_data(&self) -> Seq<DataBlock> {
        self.input_data@
    }

    /// The partitions there are.
    pub closed spec fn spec_partition_set(&self) -> Seq<u8> {
        self.partition_set@
    }

    /// The partitions spilled so far.
    pub closed spec fn spec_spilled_partition_set(&self) -> Seq<u8> {
        self.spilled_partition_set@
    }

    /// The blocks by partition id.
    pub closed spec fn spec_partitions(&self) -> Seq<(u8, DataBlock)> {
        self.partitions@
    }

    /// A hash-join spiller writing through `operator` as `config` says,
    /// holding no data and no partition.
    pub fn create(operator: Operator, config: SpillerConfig) -> (s: Spiller)
        ensures
            s.spec_operator() == operator,
            s.spec_location_prefix() == config.spec_location_prefix(),
            s.spec_input_data().len() == 0,
            s.spec_partition_set().len() == 0,
            s.spec_spilled_partition_set().len() == 0,
            s.spec_partitions().len() == 0,
    {
        let spiller_type = SpillerType::HashJoin;
        Self {
            operator,
            config,
            spiller_type,
            spiller_state: SpillerState {  },
            input_data: Vec::new(),
            partition_set: Vec::new(),
            spilled_partition_set: Vec::new(),
            partitions: Vec::new(),
        }
    }
}

} // verus!
