//! The equality of the enumerations that have a default value: what `==` computes
//! for them, and what it means in contracts.

use crate::events::OutputCategory;
use crate::requests::PathFormat;
use crate::types::{ColumnDescriptorType, SteppingGranularity};
use vstd::prelude::*;

verus! {

impl PartialEq for ColumnDescriptorType {
    fn eq(&self, other: &ColumnDescriptorType) -> (r: bool) {
        let same = match self {
            ColumnDescriptorType::String => match other {
                ColumnDescriptorType::String => true,
                _ => false,
            },
            ColumnDescriptorType::Number => match other {
                ColumnDescriptorType::Number => true,
                _ => false,
            },
            ColumnDescriptorType::Boolean => match other {
                ColumnDescriptorType::Boolean => true,
                _ => false,
            },
            ColumnDescriptorType::UnixTimestampUTC => match other {
                ColumnDescriptorType::UnixTimestampUTC => true,
                _ => false,
            },
        };
        assert(same == (*self == *other));
        same
    }
}

/// Two values are equal where they are the same value.
impl vstd::std_specs::cmp::PartialEqSpecImpl for ColumnDescriptorType {
    open spec fn obeys_eq_spec() -> bool {
        true
    }

    open spec fn eq_spec(&self, other: &ColumnDescriptorType) -> bool {
        *self == *other
    }
}

impl PartialEq for OutputCategory {
    fn eq(&self, other: &OutputCategory) -> (r: bool) {
        let same = match self {
            OutputCategory::Console => match other {
                OutputCategory::Console => true,
                _ => false,
            },
            OutputCategory::Important => match other {
                OutputCategory::Important => true,
                _ => false,
            },
            OutputCategory::Stdout => match other {
                OutputCategory::Stdout => true,
                _ => false,
            },
            OutputCategory::Stderr => match other {
                OutputCategory::Stderr => true,
                _ => false,
            },
            OutputCategory::Telemetry => match other {
                OutputCategory::Telemetry => true,
                _ => false,
            },
        };
        assert(same == (*self == *other));
        same
    }
}

/// Two values are equal where they are the same value.
impl vstd::std_specs::cmp::PartialEqSpecImpl for OutputCategory {
    open spec fn obeys_eq_spec() -> bool {
        true
    }

    open spec fn eq_spec(&self, other: &OutputCategory) -> bool {
        *self == *other
    }
}

impl PartialEq for PathFormat {
    fn eq(&self, other: &PathFormat) -> (r: bool) {
        let same = match self {
            PathFormat::Path => match other {
                PathFormat::Path => true,
                _ => false,
            },
            PathFormat::URI => match other {
                PathFormat::URI => true,
                _ => false,
            },
        };
        assert(same == (*self == *other));
        same
    }
}

/// Two values are equal where they are the same value.
impl vstd::std_specs::cmp::PartialEqSpecImpl for PathFormat {
    open spec fn obeys_eq_spec() -> bool {
        true
    }

    open spec fn eq_spec(&self, other: &PathFormat) -> bool {
        *self == *other
    }
}

impl PartialEq for SteppingGranularity {
    fn eq(&self, other: &SteppingGranularity) -> (r: bool) {
        let same = match self {
            SteppingGranularity::Statement => match other {
                SteppingGranularity::Statement => true,
                _ => false,
            },
            SteppingGranularity::Line => match other {
                SteppingGranularity::Line => true,
                _ => false,
            },
            SteppingGranularity::Instruction => match other {
                SteppingGranularity::Instruction => true,
                _ => false,
            },
        };
        assert(same == (*self == *other));
        same
    }
}

/// Two values are equal where they are the same value.
impl vstd::std_specs::cmp::PartialEqSpecImpl for SteppingGranularity {
    open spec fn obeys_eq_spec() -> bool {
        true
    }

    open spec fn eq_spec(&self, other: &SteppingGranularity) -> bool {
        *self == *other
    }
}

} // verus!
