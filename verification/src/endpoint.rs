//! Endpoint descriptors

use vstd::prelude::*;

use crate::{desc, Endpoint};

verus! {

/// Endpoint descriptor
pub struct Descriptor {
    /// Endpoint address
    pub bEndpointAddress: Endpoint,
    /// Endpoint type
    pub ty: Type,
    /// Maximum packet size (must be less than `1 << 11`)
    pub max_packet_size: u16,
    /// Polling interval
    pub bInterval: u8,
}

/// End point type
#[derive(Clone, Copy, Debug, PartialEq, Eq, Structural)]
pub enum Type {
    /// Bulk endpoint
    Bulk,
    /// Control endpoint
    Control,
    /// Interrupt endpoint
    Interrupt {
        /// Transactions per microframe
        transactions_per_microframe: Transactions,
    },
    /// Isochronous endpoint
    Isochronous {
        /// Synchronization type
        synchronization_type: SynchronizationType,
        /// Usage type
        usage_type: UsageType,
        /// Transactions per microframe
        transactions_per_microframe: Transactions,
    },
}

impl Type {
    /// The attributes byte of this endpoint type: the transfer type in bits
    /// 1-0; for an isochronous endpoint also the synchronization type in
    /// bits 3-2 and the usage type in bits 5-4.
    pub open spec fn spec_bmAttributes(self) -> u8 {
        match self {
            Type::Bulk => 0b10,
            Type::Control => 0b00,
            Type::Interrupt { .. } => 0b11,
            Type::Isochronous { synchronization_type, usage_type, .. } => 0b01 | (
            synchronization_type.spec_byte() << 2) | (usage_type.spec_byte() << 4),
        }
    }

    fn bmAttributes(&self) -> (r: u8)
        ensures
            r == self.spec_bmAttributes(),
    {
        match self {
            Type::Bulk => 0b10,
            Type::Control => 0b00,
            Type::Interrupt { .. } => 0b11,
            Type::Isochronous { synchronization_type, usage_type, .. } => 0b01 | (
            synchronization_type.byte() << 2) | (usage_type.byte() << 4),
        }
    }
}

/// Synchronization type
#[derive(Clone, Copy, Debug, PartialEq, Eq, Structural)]
pub enum SynchronizationType {
    /// No synchronization
    NoSynchronization,
    /// Asynchronous
    Asynchronous,
    /// Adaptive
    Adaptive,
    /// Synchronous
    Synchronous,
}

impl SynchronizationType {
    /// The wire code of this synchronization type.
    pub open spec fn spec_byte(self) -> u8 {
        match self {
            SynchronizationType::NoSynchronization => 0b00,
            SynchronizationType::Asynchronous => 0b01,
            SynchronizationType::Adaptive => 0b10,
            SynchronizationType::Synchronous => 0b11,
        }
    }

    fn byte(self) -> (r: u8)
        ensures
            r == self.spec_byte(),
    {
        match self {
            SynchronizationType::NoSynchronization => 0b00,
            SynchronizationType::Asynchronous => 0b01,
            SynchronizationType::Adaptive => 0b10,
            SynchronizationType::Synchronous => 0b11,
        }
    }
}

/// Usage type
#[derive(Clone, Copy, Debug, PartialEq, Eq, Structural)]
pub enum UsageType {
    /// Data endpoint
    DataEndpoint,
    /// Feedback endpoint
    FeedbackEndpoint,
    /// Implicit feedback data endpoint
    ImplicitFeedbackDataEndpoint,
}

impl UsageType {
    /// The wire code of this usage type.
    pub open spec fn spec_byte(self) -> u8 {
        match self {
            UsageType::DataEndpoint => 0b00,
            UsageType::FeedbackEndpoint => 0b01,
            UsageType::ImplicitFeedbackDataEndpoint => 0b10,
        }
    }

    fn byte(self) -> (r: u8)
        ensures
            r == self.spec_byte(),
    {
        match self {
            UsageType::DataEndpoint => 0b00,
            UsageType::FeedbackEndpoint => 0b01,
            UsageType::ImplicitFeedbackDataEndpoint => 0b10,
        }
    }
}

/// Transactions per microframe
#[derive(Clone, Copy, Debug, PartialEq, Eq, Structural)]
pub enum Transactions {
    /// 1 transaction per microframe
    _1,
    /// 2 transactions per microframe
    _2,
    /// 3 transactions per microframe
    _3,
}

impl Transactions {
    /// The wire code of this transaction count: one less than the count.
    pub open spec fn spec_byte(self) -> u8 {
        match self {
            Transactions::_1 => 0b00,
            Transactions::_2 => 0b01,
            Transactions::_3 => 0b10,
        }
    }

    fn byte(self) -> (r: u8)
        ensures
            r == self.spec_byte(),
    {
        match self {
            Transactions::_1 => 0b00,
            Transactions::_2 => 0b01,
            Transactions::_3 => 0b10,
        }
    }
}

impl Descriptor {
    /// The size of this descriptor on the wire
    pub const SIZE: u8 = 7;

    /// The packet-size word: the maximum packet size in bits 10-0 and, for
    /// an interrupt or isochronous endpoint, the transactions-per-microframe
    /// code in bits 12-11.
    pub open spec fn spec_word(self) -> u16 {
        let size = self.max_packet_size & 0x07_ff;
        match self.ty {
            Type::Interrupt { transactions_per_microframe } => size | ((
            transactions_per_microframe.spec_byte() as u16) << 11),
            Type::Isochronous { transactions_per_microframe, .. } => size | ((
            transactions_per_microframe.spec_byte() as u16) << 11),
            _ => size,
        }
    }

    /// The exact wire bytes of this descriptor: length, type, the endpoint
    /// address byte, the attributes byte, the packet-size word little-endian,
    /// and the polling interval.
    pub open spec fn spec_bytes(self) -> Seq<u8> {
        seq![
            7u8,
            5u8,
            self.bEndpointAddress.spec_byte(),
            self.ty.spec_bmAttributes(),
            self.spec_word() as u8,
            (self.spec_word() >> 8) as u8,
            self.bInterval,
        ]
    }

    /// Returns the wire representation of this descriptor
    pub fn bytes(&self) -> (r: [u8; 7])
        ensures
            r@ == self.spec_bytes(),
    {
        let mut word: u16 = self.max_packet_size & 0x07_ff;
        match self.ty {
            Type::Interrupt { transactions_per_microframe } | Type::Isochronous {
                transactions_per_microframe,
                ..
            } => {
                word = word | ((transactions_per_microframe.byte() as u16) << 11);
            },
            _ => {},
        }

        let r = [
            Self::SIZE,
            desc::Type::Endpoint.byte(),
            self.bEndpointAddress.byte(),
            self.ty.bmAttributes(),
            word as u8,
            (word >> 8) as u8,
            self.bInterval,
        ];
        proof {
            assert(r@ =~= self.spec_bytes());
        }
        r
    }
}

} // verus!
