//! Content property operations.
use vstd::prelude::*;

use serde_json::Value;

use crate::domain::PageRef;
use crate::error::{ConfluenceCliError, Result, is_config_error};
use crate::text::{copy_str, spec_is_blank, str_is_blank};

use super::models::ContentProperty;
use super::ports::PropertiesApi;

verus! {

/// A page's properties.
pub fn property_list<A: PropertiesApi>(api: &A, page: &PageRef) -> (r: Result<Vec<ContentProperty>>)
    ensures
        api.list_properties_post(page@, r),
{
    api.list_properties(page)
}

/// One property; a blank key is refused.
pub fn property_get<A: PropertiesApi>(api: &A, page: &PageRef, key: &str) -> (r: Result<ContentProperty>)
    ensures
        spec_is_blank(key@) ==> is_config_error(r, "property key must not be empty"@),
        !spec_is_blank(key@) ==> api.get_property_post(page@, key@, r),
{
    match require_property_key(key) {
        Ok(()) => {},
        Err(e) => return Err(e),
    }
    api.get_property(page, key)
}

/// Sets a property; a blank key is refused.
pub fn property_set<A: PropertiesApi>(api: &A, page: &PageRef, key: &str, value: Value) -> (r: Result<ContentProperty>)
    ensures
        spec_is_blank(key@) ==> is_config_error(r, "property key must not be empty"@),
        !spec_is_blank(key@) ==> api.set_property_post(page@, key@, value, r),
{
    match require_property_key(key) {
        Ok(()) => {},
        Err(e) => return Err(e),
    }
    api.set_property(page, key, value)
}

/// Deletes a property; a blank key is refused.
pub fn property_delete<A: PropertiesApi>(api: &A, page: &PageRef, key: &str) -> (r: Result<()>)
    ensures
        spec_is_blank(key@) ==> is_config_error(r, "property key must not be empty"@),
        !spec_is_blank(key@) ==> api.delete_property_post(page@, key@, r),
{
    match require_property_key(key) {
        Ok(()) => {},
        Err(e) => return Err(e),
    }
    api.delete_property(page, key)
}

/// Refuses a blank property key.
pub fn require_property_key(key: &str) -> (r: Result<()>)
    ensures
        spec_is_blank(key@) ==> is_config_error(r, "property key must not be empty"@),
        !spec_is_blank(key@) ==> r is Ok,
{
    if str_is_blank(key) {
        Err(ConfluenceCliError::Config(copy_str("property key must not be empty")))
    } else {
        Ok(())
    }
}

} // verus!
