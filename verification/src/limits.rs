//! Limits that keep a record's attributes and their values at a
//! reasonable size.

use vstd::prelude::*;

verus! {

/// Default maximum number of attributes per record.
pub const DEFAULT_MAX_NUMBER_OF_ATTRIBUTES: u32 = 128;

/// Default maximum length of an attribute value.
pub const DEFAULT_MAX_ATTRIBUTE_VALUE_LENGTH: u32 = 1024;

/// Log limit configuration to keep attributes and their values in a
/// reasonable size.
#[derive(Copy, Clone, Debug, PartialEq, Eq, Structural)]
pub struct LogLimits {
    /// The maximum number of attributes that can be added to a log record.
    pub max_number_of_attributes: u32,
    /// The maximum length allowed for an attribute value.
    pub max_attribute_value_length: u32,
}

impl Default for LogLimits {
    /// The default limits: 128 attributes of up to 1024 bytes each.
    fn default() -> (r: LogLimits)
        ensures
            r.max_number_of_attributes == DEFAULT_MAX_NUMBER_OF_ATTRIBUTES,
            r.max_attribute_value_length == DEFAULT_MAX_ATTRIBUTE_VALUE_LENGTH,
    {
        LogLimits {
            max_number_of_attributes: DEFAULT_MAX_NUMBER_OF_ATTRIBUTES,
            max_attribute_value_length: DEFAULT_MAX_ATTRIBUTE_VALUE_LENGTH,
        }
    }
}

impl LogLimits {
    /// Creates a new `LogLimits` instance with default values.
    pub fn new() -> (r: Self)
        ensures
            r.max_number_of_attributes == DEFAULT_MAX_NUMBER_OF_ATTRIBUTES,
            r.max_attribute_value_length == DEFAULT_MAX_ATTRIBUTE_VALUE_LENGTH,
    {
        LogLimits::default()
    }

    /// Sets the maximum number of attributes allowed per log record.
    pub fn with_max_attributes(self, max_attributes: u32) -> (r: Self)
        ensures
            r.max_number_of_attributes == max_attributes,
            r.max_attribute_value_length == self.max_attribute_value_length,
    {
        LogLimits { max_number_of_attributes: max_attributes, ..self }
    }

    /// Sets the maximum length allowed for attribute values.
    pub fn with_max_value_length(self, max_length: u32) -> (r: Self)
        ensures
            r.max_attribute_value_length == max_length,
            r.max_number_of_attributes == self.max_number_of_attributes,
    {
        LogLimits { max_attribute_value_length: max_length, ..self }
    }

    /// Returns the maximum number of attributes allowed per log record.
    pub fn max_number_of_attributes(&self) -> (r: u32)
        ensures
            r == self.max_number_of_attributes,
    {
        self.max_number_of_attributes
    }

    /// Returns the maximum length allowed for attribute values.
    pub fn max_attribute_value_length(&self) -> (r: u32)
        ensures
            r == self.max_attribute_value_length,
    {
        self.max_attribute_value_length
    }
}

} // verus!
