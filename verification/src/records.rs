//! Records of other data domains, as plain data.

use crate::webext_storage::JsonMap;
use vstd::prelude::*;

verus! {

/// The content of an address record.
#[derive(Debug, PartialEq)]
pub enum RecordData {
    Data {
        given_name: String,
        additional_name: String,
        family_name: String,
        organization: String,
        street_address: String,
        address_level3: String,
        address_level2: String,
        address_level1: String,
        postal_code: String,
        country: String,
        tel: String,
        email: String,
    },
    Tombstone,
}

/// An address record: its id and its content.
#[derive(Debug, PartialEq)]
pub struct Record {
    pub guid: String,
    pub data: RecordData,
}

/// What an application tells about itself for targeting.
#[derive(Debug, PartialEq)]
pub struct AppContext {
    pub app_name: String,
    pub app_id: String,
    pub channel: String,
    pub app_version: Option<String>,
    pub app_build: Option<String>,
    pub custom_targeting_attributes: Option<JsonMap>,
}

/// What an application that keeps state tells about itself for targeting.
#[derive(Debug, PartialEq)]
pub struct StatefulAppContext {
    pub app_name: String,
    pub app_id: String,
    pub channel: String,
    pub app_version: Option<String>,
    pub app_build: Option<String>,
    pub architecture: Option<String>,
    pub device_manufacturer: Option<String>,
    pub device_model: Option<String>,
    pub locale: Option<String>,
    pub os: Option<String>,
    pub os_version: Option<String>,
    pub android_sdk_version: Option<String>,
    pub debug_tag: Option<String>,
    pub installation_date: Option<i64>,
    pub home_directory: Option<String>,
    pub custom_targeting_attributes: Option<JsonMap>,
}

} // verus!
