//! The payload types of the directory: a node's registration metadata and
//! its latest telemetry snapshot.

use vstd::prelude::*;

verus! {

/// Metadata for one registered node: its unique human name, its unique id
/// (the key into the telemetry store), the map it simulates, and the
/// network address ("host:port") of its command port.
pub struct CityMetaData {
    pub name: String,
    pub id: String,
    pub map: String,
    pub address: String,
}

/// The mathematical value of a [`CityMetaData`]: each string as its
/// character sequence.
pub ghost struct CityMetaDataV {
    pub name: Seq<char>,
    pub id: Seq<char>,
    pub map: Seq<char>,
    pub address: Seq<char>,
}

impl View for CityMetaData {
    type V = CityMetaDataV;

    open spec fn view(&self) -> CityMetaDataV {
        CityMetaDataV {
            name: self.name@,
            id: self.id@,
            map: self.map@,
            address: self.address@,
        }
    }
}

impl Clone for CityMetaData {
    fn clone(&self) -> (r: Self)
        ensures
            r@ == self@,
    {
        CityMetaData {
            name: self.name.clone(),
            id: self.id.clone(),
            map: self.map.clone(),
            address: self.address.clone(),
        }
    }
}

/// A node's latest telemetry snapshot: whether the simulation is running,
/// the elapsed simulated time, and the population count.
///
/// The elapsed time travels as the bit pattern of an IEEE 754 double
/// (`f64::to_bits`): the directory stores and returns it unread, so the
/// exact value round-trips.
#[derive(Clone, Copy, Debug, PartialEq, Eq, Structural)]
pub struct CityInfo {
    pub simrunning: bool,
    pub elapsed_bits: u64,
    pub population: u32,
}

} // verus!
