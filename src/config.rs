use vstd::prelude::*;

verus! {

/// Timing parameters of the outgoing-traffic scheduler, all in nanoseconds.
///
/// Each value is the mean of a Poisson (exponential-interval) process.
pub struct Config {
    /// Average delay an acknowledgement packet gets at a single mix node.
    pub average_ack_delay: u64,
    /// Average delay a data packet gets at a single mix node.
    pub average_packet_delay: u64,
    /// Average delay between two subsequent packets sent out.
    pub average_message_sending_delay: u64,
}

impl Config {
    pub fn new(
        average_ack_delay: u64,
        average_packet_delay: u64,
        average_message_sending_delay: u64,
    ) -> (r: Self)
        ensures
            r.average_ack_delay == average_ack_delay,
            r.average_packet_delay == average_packet_delay,
            r.average_message_sending_delay == average_message_sending_delay,
    {
        Config { average_ack_delay, average_packet_delay, average_message_sending_delay }
    }
}

} // verus!
