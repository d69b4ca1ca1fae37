//! Message buffers and queues.

use vstd::prelude::*;

verus! {

/// Message priority levels.
#[derive(Clone, Copy, Debug, PartialEq, Eq, Structural)]
pub enum OTMessagePriority {
    Low,
    Normal,
    High,
}

/// Message origins.
#[derive(Clone, Copy, Debug, PartialEq, Eq, Structural)]
pub enum OTMessageOrigin {
    ThreadNetif,
    HostTrusted,
    HostUntrusted,
}

/// Message settings.
#[derive(Clone, Copy, Debug, PartialEq, Eq, Structural)]
pub struct OTMessageSettings {
    pub link_security_enabled: bool,
    pub priority: u8,
}

/// Link-specific information for messages received from the Thread radio.
#[derive(Clone, Copy, Debug, PartialEq, Eq, Structural)]
pub struct OTThreadLinkInfo {
    pub pan_id: u16,
    pub channel: u8,
    pub rssi: i8,
    pub lqi: u8,
    pub link_security: bool,
    pub is_dst_pan_id_broadcast: bool,
    pub time_sync_sequence: u8,
    pub network_time_offset: i64,
    pub radio_type: u8,
}

/// A message as the stack sees it.
pub trait OTMessage {
    type Error;

    fn get_message_length(&self) -> u16;

    fn set_message_length(&mut self, length: u16);

    fn get_message_offset(&self) -> u16;

    fn set_message_offset(&mut self, offset: u16);

    fn is_link_security_enabled(&self) -> bool;

    fn is_loopback_to_host_allowed(&self) -> bool;

    fn set_loopback_to_host_allowed(&mut self, allowed: bool);

    fn is_multicast_loop_enabled(&self) -> bool;

    fn set_multicast_loop_enabled(&mut self, enabled: bool);

    fn get_message_origin(&self) -> OTMessageOrigin;

    fn set_message_origin(&mut self, origin: OTMessageOrigin);

    fn set_direct_transmission(&mut self, enabled: bool);

    fn get_rssi(&self) -> i8;

    fn get_thread_link_info(&self) -> Result<OTThreadLinkInfo, Self::Error>;

    fn append_to_message(&mut self, data: &[u8]) -> Result<(), Self::Error>;

    /// Read up to `max_len` bytes from the message starting at `offset`.
    fn read_from_message(&self, offset: u16, max_len: u16) -> Vec<u8>;

    /// Write bytes to the message, returning the number of bytes written.
    fn write_to_message(&mut self, offset: u16, buffer: &[u8]) -> usize;
}

/// Information about a message queue.
#[derive(Clone, Copy, Debug, PartialEq, Eq, Structural)]
pub struct OTMessageQueueInfo {
    pub num_messages: u16,
    pub num_buffers: u16,
    pub total_bytes: u32,
}

/// Message buffer information for the queues used by the stack.
#[derive(Clone, Copy, Debug, PartialEq, Eq, Structural)]
pub struct OTBufferInfo {
    pub total_buffers: u16,
    pub free_buffers: u16,
    /// Maximum number of used buffers at the same time since initialization
    /// or the last `reset_buffer_info`
    pub max_used_buffers: u16,
    pub lowpan_send_queue: OTMessageQueueInfo,
    pub lowpan_reassembly_queue: OTMessageQueueInfo,
    pub ip6_queue: OTMessageQueueInfo,
    pub mpl_queue: OTMessageQueueInfo,
    pub coap_queue: OTMessageQueueInfo,
    pub coap_secure_queue: OTMessageQueueInfo,
    pub application_coap_queue: OTMessageQueueInfo,
}

/// A FIFO queue of messages, viewed as the sequence it holds.
pub trait OTMessageQueue<M>: View<V = Seq<M>> {
    /// Appends a message at the tail.
    fn enqueue_message(&mut self, message: M)
        ensures
            final(self)@ == old(self)@.push(message),
    ;

    /// Inserts a message at the head.
    fn enqueue_message_at_head(&mut self, message: M)
        ensures
            final(self)@ == seq![message] + old(self)@,
    ;

    /// Removes the message at `index`; out of range, the queue is unchanged.
    fn dequeue_message(&mut self, index: usize)
        ensures
            index < old(self)@.len() ==> final(self)@ == old(self)@.remove(index as int),
            index >= old(self)@.len() ==> final(self)@ == old(self)@,
    ;

    /// The message at the head.
    fn get_head(&self) -> (message: &M)
        requires
            self@.len() > 0,
        ensures
            *message == self@[0],
    ;
}

impl<M> OTMessageQueue<M> for Vec<M> {
    fn enqueue_message(&mut self, message: M) {
        self.push(message);
    }

    fn enqueue_message_at_head(&mut self, message: M) {
        self.insert(0, message);
        proof {
            assert(self@ =~= seq![self@[0]] + old(self)@);
        }
    }

    fn dequeue_message(&mut self, index: usize) {
        if index < self.len() {
            self.remove(index);
        }
    }

    fn get_head(&self) -> &M {
        &self[0]
    }
}

/// Message buffer bookkeeping exposed by the owning instance.
pub trait OTInstanceMessageQueue {
    fn get_message_buffer_info(&mut self) -> OTBufferInfo;

    fn reset_buffer_info(&mut self);
}

} // verus!
