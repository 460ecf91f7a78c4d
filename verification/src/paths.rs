//! Typed query-parameter structs for the NetBox REST API paths.
//!
//! Each struct gathers the query parameters one path's operation
//! accepts, one public field per parameter. Date-time values are
//! carried as strings, the crate's documented date-time mapping.

use vstd::prelude::*;

verus! {

pub struct DcimCableTerminationsRetrieveQuery {}

pub struct DcimCableTerminationsUpdateQuery {}

pub struct DcimCableTerminationsPartialUpdateQuery {}

pub struct DcimCableTerminationsDestroyQuery {}

pub struct TenancyTenantsRetrieveQuery {}

pub struct TenancyTenantsUpdateQuery {}

pub struct TenancyTenantsPartialUpdateQuery {}

pub struct TenancyTenantsDestroyQuery {}

pub struct ExtrasCustomLinksListQuery {
    pub content_typ_id: Vec<i32>,
    pub content_typ_id__empty: Vec<i32>,
    pub content_typ_id__gt: Vec<i32>,
    pub content_typ_id__gte: Vec<i32>,
    pub content_typ_id__lt: Vec<i32>,
    pub content_typ_id__lte: Vec<i32>,
    pub content_typ_id__n: Vec<i32>,
    pub content_typs: String,
    pub content_typs__ic: String,
    pub content_typs__ie: String,
    pub content_typs__iew: String,
    pub content_typs__isw: String,
    pub content_typs__n: String,
    pub content_typs__nic: String,
    pub content_typs__nie: String,
    pub content_typs__niew: String,
    pub content_typs__nisw: String,
    pub enabled: bool,
    pub group_name: Vec<String>,
    pub group_name__empty: bool,
    pub group_name__ic: Vec<String>,
    pub group_name__ie: Vec<String>,
    pub group_name__iew: Vec<String>,
    pub group_name__isw: Vec<String>,
    pub group_name__n: Vec<String>,
    pub group_name__nic: Vec<String>,
    pub group_name__nie: Vec<String>,
    pub group_name__niew: Vec<String>,
    pub group_name__nisw: Vec<String>,
    pub id: Vec<i32>,
    pub id__empty: bool,
    pub id__gt: Vec<i32>,
    pub id__gte: Vec<i32>,
    pub id__lt: Vec<i32>,
    pub id__lte: Vec<i32>,
    pub id__n: Vec<i32>,
    pub limit: i64,
    pub link_text: String,
    pub link_text__ic: String,
    pub link_text__ie: String,
    pub link_text__iew: String,
    pub link_text__isw: String,
    pub link_text__n: String,
    pub link_text__nic: String,
    pub link_text__nie: String,
    pub link_text__niew: String,
    pub link_text__nisw: String,
    pub link_url: String,
    pub link_url__ic: String,
    pub link_url__ie: String,
    pub link_url__iew: String,
    pub link_url__isw: String,
    pub link_url__n: String,
    pub link_url__nic: String,
    pub link_url__nie: String,
    pub link_url__niew: String,
    pub link_url__nisw: String,
    pub name: Vec<String>,
    pub name__empty: bool,
    pub name__ic: Vec<String>,
    pub name__ie: Vec<String>,
    pub name__iew: Vec<String>,
    pub name__isw: Vec<String>,
    pub name__n: Vec<String>,
    pub name__nic: Vec<String>,
    pub name__nie: Vec<String>,
    pub name__niew: Vec<String>,
    pub name__nisw: Vec<String>,
    pub new_window: bool,
    pub offset: i64,
    pub ordering: String,
    pub q: String,
    pub weight: Vec<i32>,
    pub weight__empty: bool,
    pub weight__gt: Vec<i32>,
    pub weight__gte: Vec<i32>,
    pub weight__lt: Vec<i32>,
    pub weight__lte: Vec<i32>,
    pub weight__n: Vec<i32>,
}

pub struct ExtrasCustomLinksBulkUpdateQuery {}

pub struct ExtrasCustomLinksCreateQuery {}

pub struct ExtrasCustomLinksBulkPartialUpdateQuery {}

pub struct ExtrasCustomLinksBulkDestroyQuery {}

pub struct UsersTokensProvisionCreateQuery {}

pub struct DcimDevicesBulkUpdateQuery {}

pub struct DcimDevicesCreateQuery {}

pub struct DcimDevicesBulkPartialUpdateQuery {}

pub struct DcimDevicesBulkDestroyQuery {}

pub struct DcimRackRolesListQuery {
    pub color: Vec<String>,
    pub color__empty: bool,
    pub color__ic: Vec<String>,
    pub color__ie: Vec<String>,
    pub color__iew: Vec<String>,
    pub color__isw: Vec<String>,
    pub color__n: Vec<String>,
    pub color__nic: Vec<String>,
    pub color__nie: Vec<String>,
    pub color__niew: Vec<String>,
    pub color__nisw: Vec<String>,
    pub created: Vec<String>,
    pub created__empty: Vec<String>,
    pub created__gt: Vec<String>,
    pub created__gte: Vec<String>,
    pub created__lt: Vec<String>,
    pub created__lte: Vec<String>,
    pub created__n: Vec<String>,
    pub created_by_request: String,
    pub description: Vec<String>,
    pub description__empty: bool,
    pub description__ic: Vec<String>,
    pub description__ie: Vec<String>,
    pub description__iew: Vec<String>,
    pub description__isw: Vec<String>,
    pub description__n: Vec<String>,
    pub description__nic: Vec<String>,
    pub description__nie: Vec<String>,
    pub description__niew: Vec<String>,
    pub description__nisw: Vec<String>,
    pub id: Vec<i32>,
    pub id__empty: bool,
    pub id__gt: Vec<i32>,
    pub id__gte: Vec<i32>,
    pub id__lt: Vec<i32>,
    pub id__lte: Vec<i32>,
    pub id__n: Vec<i32>,
    pub last_updated: Vec<String>,
    pub last_updated__empty: Vec<String>,
    pub last_updated__gt: Vec<String>,
    pub last_updated__gte: Vec<String>,
    pub last_updated__lt: Vec<String>,
    pub last_updated__lte: Vec<String>,
    pub last_updated__n: Vec<String>,
    pub limit: i64,
    pub modified_by_request: String,
    pub name: Vec<String>,
    pub name__empty: bool,
    pub name__ic: Vec<String>,
    pub name__ie: Vec<String>,
    pub name__iew: Vec<String>,
    pub name__isw: Vec<String>,
    pub name__n: Vec<String>,
    pub name__nic: Vec<String>,
    pub name__nie: Vec<String>,
    pub name__niew: Vec<String>,
    pub name__nisw: Vec<String>,
    pub offset: i64,
    pub ordering: String,
    pub q: String,
    pub slug: Vec<String>,
    pub slug__empty: bool,
    pub slug__ic: Vec<String>,
    pub slug__ie: Vec<String>,
    pub slug__iew: Vec<String>,
    pub slug__isw: Vec<String>,
    pub slug__n: Vec<String>,
    pub slug__nic: Vec<String>,
    pub slug__nie: Vec<String>,
    pub slug__niew: Vec<String>,
    pub slug__nisw: Vec<String>,
    pub tag: Vec<String>,
    pub tag__n: Vec<String>,
    pub updated_by_request: String,
}

pub struct DcimRackRolesBulkUpdateQuery {}

pub struct DcimRackRolesCreateQuery {}

pub struct DcimRackRolesBulkPartialUpdateQuery {}

pub struct DcimRackRolesBulkDestroyQuery {}

pub struct IpamL2VpnsListQuery {
    pub created: Vec<String>,
    pub created__empty: Vec<String>,
    pub created__gt: Vec<String>,
    pub created__gte: Vec<String>,
    pub created__lt: Vec<String>,
    pub created__lte: Vec<String>,
    pub created__n: Vec<String>,
    pub created_by_request: String,
    pub description: Vec<String>,
    pub description__empty: bool,
    pub description__ic: Vec<String>,
    pub description__ie: Vec<String>,
    pub description__iew: Vec<String>,
    pub description__isw: Vec<String>,
    pub description__n: Vec<String>,
    pub description__nic: Vec<String>,
    pub description__nie: Vec<String>,
    pub description__niew: Vec<String>,
    pub description__nisw: Vec<String>,
    pub export_target: Vec<String>,
    pub export_target__n: Vec<String>,
    pub export_target_id: Vec<i64>,
    pub export_target_id__n: Vec<i64>,
    pub id: Vec<i32>,
    pub id__empty: bool,
    pub id__gt: Vec<i32>,
    pub id__gte: Vec<i32>,
    pub id__lt: Vec<i32>,
    pub id__lte: Vec<i32>,
    pub id__n: Vec<i32>,
    pub identifier: Vec<i32>,
    pub identifier__empty: bool,
    pub identifier__gt: Vec<i32>,
    pub identifier__gte: Vec<i32>,
    pub identifier__lt: Vec<i32>,
    pub identifier__lte: Vec<i32>,
    pub identifier__n: Vec<i32>,
    pub import_target: Vec<String>,
    pub import_target__n: Vec<String>,
    pub import_target_id: Vec<i64>,
    pub import_target_id__n: Vec<i64>,
    pub last_updated: Vec<String>,
    pub last_updated__empty: Vec<String>,
    pub last_updated__gt: Vec<String>,
    pub last_updated__gte: Vec<String>,
    pub last_updated__lt: Vec<String>,
    pub last_updated__lte: Vec<String>,
    pub last_updated__n: Vec<String>,
    pub limit: i64,
    pub modified_by_request: String,
    pub name: Vec<String>,
    pub name__empty: bool,
    pub name__ic: Vec<String>,
    pub name__ie: Vec<String>,
    pub name__iew: Vec<String>,
    pub name__isw: Vec<String>,
    pub name__n: Vec<String>,
    pub name__nic: Vec<String>,
    pub name__nie: Vec<String>,
    pub name__niew: Vec<String>,
    pub name__nisw: Vec<String>,
    pub offset: i64,
    pub ordering: String,
    pub q: String,
    pub slug: Vec<String>,
    pub slug__empty: bool,
    pub slug__ic: Vec<String>,
    pub slug__ie: Vec<String>,
    pub slug__iew: Vec<String>,
    pub slug__isw: Vec<String>,
    pub slug__n: Vec<String>,
    pub slug__nic: Vec<String>,
    pub slug__nie: Vec<String>,
    pub slug__niew: Vec<String>,
    pub slug__nisw: Vec<String>,
    pub tag: Vec<String>,
    pub tag__n: Vec<String>,
    pub tenant: Vec<String>,
    pub tenant__n: Vec<String>,
    pub tenant_group: Vec<i64>,
    pub tenant_group__n: Vec<i64>,
    pub tenant_group_id: Vec<i64>,
    pub tenant_group_id__n: Vec<i64>,
    pub tenant_id: Vec<i64>,
    pub tenant_id__n: Vec<i64>,
    pub typ: Vec<String>,
    pub typ__n: Vec<String>,
    pub updated_by_request: String,
}

pub struct IpamL2VpnsBulkUpdateQuery {}

pub struct IpamL2VpnsCreateQuery {}

pub struct IpamL2VpnsBulkPartialUpdateQuery {}

pub struct IpamL2VpnsBulkDestroyQuery {}

pub struct DcimPowerPanelsListQuery {
    pub contact: Vec<i64>,
    pub contact__n: Vec<i64>,
    pub contact_group: Vec<i64>,
    pub contact_group__n: Vec<i64>,
    pub contact_role: Vec<i64>,
    pub contact_role__n: Vec<i64>,
    pub created: Vec<String>,
    pub created__empty: Vec<String>,
    pub created__gt: Vec<String>,
    pub created__gte: Vec<String>,
    pub created__lt: Vec<String>,
    pub created__lte: Vec<String>,
    pub created__n: Vec<String>,
    pub created_by_request: String,
    pub id: Vec<i32>,
    pub id__empty: bool,
    pub id__gt: Vec<i32>,
    pub id__gte: Vec<i32>,
    pub id__lt: Vec<i32>,
    pub id__lte: Vec<i32>,
    pub id__n: Vec<i32>,
    pub last_updated: Vec<String>,
    pub last_updated__empty: Vec<String>,
    pub last_updated__gt: Vec<String>,
    pub last_updated__gte: Vec<String>,
    pub last_updated__lt: Vec<String>,
    pub last_updated__lte: Vec<String>,
    pub last_updated__n: Vec<String>,
    pub limit: i64,
    pub location_id: Vec<i64>,
    pub location_id__n: Vec<i64>,
    pub modified_by_request: String,
    pub name: Vec<String>,
    pub name__empty: bool,
    pub name__ic: Vec<String>,
    pub name__ie: Vec<String>,
    pub name__iew: Vec<String>,
    pub name__isw: Vec<String>,
    pub name__n: Vec<String>,
    pub name__nic: Vec<String>,
    pub name__nie: Vec<String>,
    pub name__niew: Vec<String>,
    pub name__nisw: Vec<String>,
    pub offset: i64,
    pub ordering: String,
    pub q: String,
    pub region: Vec<i64>,
    pub region__n: Vec<i64>,
    pub region_id: Vec<i64>,
    pub region_id__n: Vec<i64>,
    pub site: Vec<String>,
    pub site__n: Vec<String>,
    pub site_group: Vec<i64>,
    pub site_group__n: Vec<i64>,
    pub site_group_id: Vec<i64>,
    pub site_group_id__n: Vec<i64>,
    pub site_id: Vec<i64>,
    pub site_id__n: Vec<i64>,
    pub tag: Vec<String>,
    pub tag__n: Vec<String>,
    pub updated_by_request: String,
}

pub struct DcimPowerPanelsBulkUpdateQuery {}

pub struct DcimPowerPanelsCreateQuery {}

pub struct DcimPowerPanelsBulkPartialUpdateQuery {}

pub struct DcimPowerPanelsBulkDestroyQuery {}

pub struct ExtrasWebhooksListQuery {
    pub ca_file_path: Vec<String>,
    pub ca_file_path__empty: bool,
    pub ca_file_path__ic: Vec<String>,
    pub ca_file_path__ie: Vec<String>,
    pub ca_file_path__iew: Vec<String>,
    pub ca_file_path__isw: Vec<String>,
    pub ca_file_path__n: Vec<String>,
    pub ca_file_path__nic: Vec<String>,
    pub ca_file_path__nie: Vec<String>,
    pub ca_file_path__niew: Vec<String>,
    pub ca_file_path__nisw: Vec<String>,
    pub content_typ_id: Vec<i32>,
    pub content_typ_id__empty: Vec<i32>,
    pub content_typ_id__gt: Vec<i32>,
    pub content_typ_id__gte: Vec<i32>,
    pub content_typ_id__lt: Vec<i32>,
    pub content_typ_id__lte: Vec<i32>,
    pub content_typ_id__n: Vec<i32>,
    pub content_typs: String,
    pub content_typs__ic: String,
    pub content_typs__ie: String,
    pub content_typs__iew: String,
    pub content_typs__isw: String,
    pub content_typs__n: String,
    pub content_typs__nic: String,
    pub content_typs__nie: String,
    pub content_typs__niew: String,
    pub content_typs__nisw: String,
    pub created: Vec<String>,
    pub created__empty: Vec<String>,
    pub created__gt: Vec<String>,
    pub created__gte: Vec<String>,
    pub created__lt: Vec<String>,
    pub created__lte: Vec<String>,
    pub created__n: Vec<String>,
    pub created_by_request: String,
    pub enabled: bool,
    pub http_content_typ: Vec<String>,
    pub http_content_typ__empty: bool,
    pub http_content_typ__ic: Vec<String>,
    pub http_content_typ__ie: Vec<String>,
    pub http_content_typ__iew: Vec<String>,
    pub http_content_typ__isw: Vec<String>,
    pub http_content_typ__n: Vec<String>,
    pub http_content_typ__nic: Vec<String>,
    pub http_content_typ__nie: Vec<String>,
    pub http_content_typ__niew: Vec<String>,
    pub http_content_typ__nisw: Vec<String>,
    pub http_method: Vec<String>,
    pub http_method__n: Vec<String>,
    pub id: Vec<i32>,
    pub id__empty: bool,
    pub id__gt: Vec<i32>,
    pub id__gte: Vec<i32>,
    pub id__lt: Vec<i32>,
    pub id__lte: Vec<i32>,
    pub id__n: Vec<i32>,
    pub last_updated: Vec<String>,
    pub last_updated__empty: Vec<String>,
    pub last_updated__gt: Vec<String>,
    pub last_updated__gte: Vec<String>,
    pub last_updated__lt: Vec<String>,
    pub last_updated__lte: Vec<String>,
    pub last_updated__n: Vec<String>,
    pub limit: i64,
    pub modified_by_request: String,
    pub name: Vec<String>,
    pub name__empty: bool,
    pub name__ic: Vec<String>,
    pub name__ie: Vec<String>,
    pub name__iew: Vec<String>,
    pub name__isw: Vec<String>,
    pub name__n: Vec<String>,
    pub name__nic: Vec<String>,
    pub name__nie: Vec<String>,
    pub name__niew: Vec<String>,
    pub name__nisw: Vec<String>,
    pub offset: i64,
    pub ordering: String,
    pub payload_url: Vec<String>,
    pub payload_url__empty: bool,
    pub payload_url__ic: Vec<String>,
    pub payload_url__ie: Vec<String>,
    pub payload_url__iew: Vec<String>,
    pub payload_url__isw: Vec<String>,
    pub payload_url__n: Vec<String>,
    pub payload_url__nic: Vec<String>,
    pub payload_url__nie: Vec<String>,
    pub payload_url__niew: Vec<String>,
    pub payload_url__nisw: Vec<String>,
    pub q: String,
    pub secret: Vec<String>,
    pub secret__empty: bool,
    pub secret__ic: Vec<String>,
    pub secret__ie: Vec<String>,
    pub secret__iew: Vec<String>,
    pub secret__isw: Vec<String>,
    pub secret__n: Vec<String>,
    pub secret__nic: Vec<String>,
    pub secret__nie: Vec<String>,
    pub secret__niew: Vec<String>,
    pub secret__nisw: Vec<String>,
    pub ssl_verification: bool,
    pub tag: Vec<String>,
    pub tag__n: Vec<String>,
    pub typ_create: bool,
    pub typ_delete: bool,
    pub typ_job_end: bool,
    pub typ_job_start: bool,
    pub typ_update: bool,
    pub updated_by_request: String,
}

pub struct ExtrasWebhooksBulkUpdateQuery {}

pub struct ExtrasWebhooksCreateQuery {}

pub struct ExtrasWebhooksBulkPartialUpdateQuery {}

pub struct ExtrasWebhooksBulkDestroyQuery {}

pub struct TenancyContactAssignmentsListQuery {
    pub contact_id: Vec<i64>,
    pub contact_id__n: Vec<i64>,
    pub content_typ: String,
    pub content_typ__n: String,
    pub content_typ_id: i64,
    pub content_typ_id__n: i64,
    pub created: Vec<String>,
    pub created__empty: Vec<String>,
    pub created__gt: Vec<String>,
    pub created__gte: Vec<String>,
    pub created__lt: Vec<String>,
    pub created__lte: Vec<String>,
    pub created__n: Vec<String>,
    pub created_by_request: String,
    pub id: Vec<i32>,
    pub id__empty: bool,
    pub id__gt: Vec<i32>,
    pub id__gte: Vec<i32>,
    pub id__lt: Vec<i32>,
    pub id__lte: Vec<i32>,
    pub id__n: Vec<i32>,
    pub last_updated: Vec<String>,
    pub last_updated__empty: Vec<String>,
    pub last_updated__gt: Vec<String>,
    pub last_updated__gte: Vec<String>,
    pub last_updated__lt: Vec<String>,
    pub last_updated__lte: Vec<String>,
    pub last_updated__n: Vec<String>,
    pub limit: i64,
    pub modified_by_request: String,
    pub object_id: Vec<i32>,
    pub object_id__empty: bool,
    pub object_id__gt: Vec<i32>,
    pub object_id__gte: Vec<i32>,
    pub object_id__lt: Vec<i32>,
    pub object_id__lte: Vec<i32>,
    pub object_id__n: Vec<i32>,
    pub offset: i64,
    pub ordering: String,
    pub priority: String,
    pub priority__n: String,
    pub q: String,
    pub role: Vec<String>,
    pub role__n: Vec<String>,
    pub role_id: Vec<i64>,
    pub role_id__n: Vec<i64>,
    pub tag: Vec<String>,
    pub tag__n: Vec<String>,
    pub updated_by_request: String,
}

pub struct TenancyContactAssignmentsBulkUpdateQuery {}

pub struct TenancyContactAssignmentsCreateQuery {}

pub struct TenancyContactAssignmentsBulkPartialUpdateQuery {}

pub struct TenancyContactAssignmentsBulkDestroyQuery {}

pub struct WirelessWirelessLinksListQuery {
    pub auth_cipher: Vec<String>,
    pub auth_cipher__n: Vec<String>,
    pub auth_psk: Vec<String>,
    pub auth_psk__empty: bool,
    pub auth_psk__ic: Vec<String>,
    pub auth_psk__ie: Vec<String>,
    pub auth_psk__iew: Vec<String>,
    pub auth_psk__isw: Vec<String>,
    pub auth_psk__n: Vec<String>,
    pub auth_psk__nic: Vec<String>,
    pub auth_psk__nie: Vec<String>,
    pub auth_psk__niew: Vec<String>,
    pub auth_psk__nisw: Vec<String>,
    pub auth_typ: Vec<String>,
    pub auth_typ__n: Vec<String>,
    pub created: Vec<String>,
    pub created__empty: Vec<String>,
    pub created__gt: Vec<String>,
    pub created__gte: Vec<String>,
    pub created__lt: Vec<String>,
    pub created__lte: Vec<String>,
    pub created__n: Vec<String>,
    pub created_by_request: String,
    pub description: Vec<String>,
    pub description__empty: bool,
    pub description__ic: Vec<String>,
    pub description__ie: Vec<String>,
    pub description__iew: Vec<String>,
    pub description__isw: Vec<String>,
    pub description__n: Vec<String>,
    pub description__nic: Vec<String>,
    pub description__nie: Vec<String>,
    pub description__niew: Vec<String>,
    pub description__nisw: Vec<String>,
    pub id: Vec<i32>,
    pub id__empty: bool,
    pub id__gt: Vec<i32>,
    pub id__gte: Vec<i32>,
    pub id__lt: Vec<i32>,
    pub id__lte: Vec<i32>,
    pub id__n: Vec<i32>,
    pub interface_a_id: Vec<i32>,
    pub interface_a_id__empty: Vec<i32>,
    pub interface_a_id__gt: Vec<i32>,
    pub interface_a_id__gte: Vec<i32>,
    pub interface_a_id__lt: Vec<i32>,
    pub interface_a_id__lte: Vec<i32>,
    pub interface_a_id__n: Vec<i32>,
    pub interface_b_id: Vec<i32>,
    pub interface_b_id__empty: Vec<i32>,
    pub interface_b_id__gt: Vec<i32>,
    pub interface_b_id__gte: Vec<i32>,
    pub interface_b_id__lt: Vec<i32>,
    pub interface_b_id__lte: Vec<i32>,
    pub interface_b_id__n: Vec<i32>,
    pub last_updated: Vec<String>,
    pub last_updated__empty: Vec<String>,
    pub last_updated__gt: Vec<String>,
    pub last_updated__gte: Vec<String>,
    pub last_updated__lt: Vec<String>,
    pub last_updated__lte: Vec<String>,
    pub last_updated__n: Vec<String>,
    pub limit: i64,
    pub modified_by_request: String,
    pub offset: i64,
    pub ordering: String,
    pub q: String,
    pub ssid: Vec<String>,
    pub ssid__empty: bool,
    pub ssid__ic: Vec<String>,
    pub ssid__ie: Vec<String>,
    pub ssid__iew: Vec<String>,
    pub ssid__isw: Vec<String>,
    pub ssid__n: Vec<String>,
    pub ssid__nic: Vec<String>,
    pub ssid__nie: Vec<String>,
    pub ssid__niew: Vec<String>,
    pub ssid__nisw: Vec<String>,
    pub status: Vec<String>,
    pub status__n: Vec<String>,
    pub tag: Vec<String>,
    pub tag__n: Vec<String>,
    pub tenant: Vec<String>,
    pub tenant__n: Vec<String>,
    pub tenant_group: Vec<i64>,
    pub tenant_group__n: Vec<i64>,
    pub tenant_group_id: Vec<i64>,
    pub tenant_group_id__n: Vec<i64>,
    pub tenant_id: Vec<i64>,
    pub tenant_id__n: Vec<i64>,
    pub updated_by_request: String,
}

pub struct WirelessWirelessLinksBulkUpdateQuery {}

pub struct WirelessWirelessLinksCreateQuery {}

pub struct WirelessWirelessLinksBulkPartialUpdateQuery {}

pub struct WirelessWirelessLinksBulkDestroyQuery {}

pub struct IpamAggregatesBulkUpdateQuery {}

pub struct IpamAggregatesCreateQuery {}

pub struct IpamAggregatesBulkPartialUpdateQuery {}

pub struct IpamAggregatesBulkDestroyQuery {}

pub struct DcimModulesListQuery {
    pub asset_tag: Vec<String>,
    pub asset_tag__empty: bool,
    pub asset_tag__ic: Vec<String>,
    pub asset_tag__ie: Vec<String>,
    pub asset_tag__iew: Vec<String>,
    pub asset_tag__isw: Vec<String>,
    pub asset_tag__n: Vec<String>,
    pub asset_tag__nic: Vec<String>,
    pub asset_tag__nie: Vec<String>,
    pub asset_tag__niew: Vec<String>,
    pub asset_tag__nisw: Vec<String>,
    pub created: Vec<String>,
    pub created__empty: Vec<String>,
    pub created__gt: Vec<String>,
    pub created__gte: Vec<String>,
    pub created__lt: Vec<String>,
    pub created__lte: Vec<String>,
    pub created__n: Vec<String>,
    pub created_by_request: String,
    pub device_id: Vec<i64>,
    pub device_id__n: Vec<i64>,
    pub id: Vec<i32>,
    pub id__empty: bool,
    pub id__gt: Vec<i32>,
    pub id__gte: Vec<i32>,
    pub id__lt: Vec<i32>,
    pub id__lte: Vec<i32>,
    pub id__n: Vec<i32>,
    pub last_updated: Vec<String>,
    pub last_updated__empty: Vec<String>,
    pub last_updated__gt: Vec<String>,
    pub last_updated__gte: Vec<String>,
    pub last_updated__lt: Vec<String>,
    pub last_updated__lte: Vec<String>,
    pub last_updated__n: Vec<String>,
    pub limit: i64,
    pub manufacturer: Vec<String>,
    pub manufacturer__n: Vec<String>,
    pub manufacturer_id: Vec<i64>,
    pub manufacturer_id__n: Vec<i64>,
    pub modified_by_request: String,
    pub module_bay_id: Vec<i64>,
    pub module_bay_id__n: Vec<i64>,
    pub module_typ: Vec<String>,
    pub module_typ__n: Vec<String>,
    pub module_typ_id: Vec<i64>,
    pub module_typ_id__n: Vec<i64>,
    pub offset: i64,
    pub ordering: String,
    pub q: String,
    pub serial: Vec<String>,
    pub serial__empty: bool,
    pub serial__ic: Vec<String>,
    pub serial__ie: Vec<String>,
    pub serial__iew: Vec<String>,
    pub serial__isw: Vec<String>,
    pub serial__n: Vec<String>,
    pub serial__nic: Vec<String>,
    pub serial__nie: Vec<String>,
    pub serial__niew: Vec<String>,
    pub serial__nisw: Vec<String>,
    pub status: Vec<String>,
    pub status__n: Vec<String>,
    pub tag: Vec<String>,
    pub tag__n: Vec<String>,
    pub updated_by_request: String,
}

pub struct DcimModulesBulkUpdateQuery {}

pub struct DcimModulesCreateQuery {}

pub struct DcimModulesBulkPartialUpdateQuery {}

pub struct DcimModulesBulkDestroyQuery {}

pub struct IpamIpRangesRetrieveQuery {}

pub struct IpamIpRangesUpdateQuery {}

pub struct IpamIpRangesPartialUpdateQuery {}

pub struct IpamIpRangesDestroyQuery {}

pub struct DcimFrontPortTemplatesListQuery {
    pub color: Vec<String>,
    pub color__empty: bool,
    pub color__ic: Vec<String>,
    pub color__ie: Vec<String>,
    pub color__iew: Vec<String>,
    pub color__isw: Vec<String>,
    pub color__n: Vec<String>,
    pub color__nic: Vec<String>,
    pub color__nie: Vec<String>,
    pub color__niew: Vec<String>,
    pub color__nisw: Vec<String>,
    pub created: Vec<String>,
    pub created__empty: Vec<String>,
    pub created__gt: Vec<String>,
    pub created__gte: Vec<String>,
    pub created__lt: Vec<String>,
    pub created__lte: Vec<String>,
    pub created__n: Vec<String>,
    pub created_by_request: String,
    pub devicetyp_id: Vec<i64>,
    pub devicetyp_id__n: Vec<i64>,
    pub id: Vec<i32>,
    pub id__empty: bool,
    pub id__gt: Vec<i32>,
    pub id__gte: Vec<i32>,
    pub id__lt: Vec<i32>,
    pub id__lte: Vec<i32>,
    pub id__n: Vec<i32>,
    pub last_updated: Vec<String>,
    pub last_updated__empty: Vec<String>,
    pub last_updated__gt: Vec<String>,
    pub last_updated__gte: Vec<String>,
    pub last_updated__lt: Vec<String>,
    pub last_updated__lte: Vec<String>,
    pub last_updated__n: Vec<String>,
    pub limit: i64,
    pub modified_by_request: String,
    pub moduletyp_id: Vec<i64>,
    pub moduletyp_id__n: Vec<i64>,
    pub name: Vec<String>,
    pub name__empty: bool,
    pub name__ic: Vec<String>,
    pub name__ie: Vec<String>,
    pub name__iew: Vec<String>,
    pub name__isw: Vec<String>,
    pub name__n: Vec<String>,
    pub name__nic: Vec<String>,
    pub name__nie: Vec<String>,
    pub name__niew: Vec<String>,
    pub name__nisw: Vec<String>,
    pub offset: i64,
    pub ordering: String,
    pub q: String,
    pub typ: Vec<String>,
    pub typ__n: Vec<String>,
    pub updated_by_request: String,
}

pub struct DcimFrontPortTemplatesBulkUpdateQuery {}

pub struct DcimFrontPortTemplatesCreateQuery {}

pub struct DcimFrontPortTemplatesBulkPartialUpdateQuery {}

pub struct DcimFrontPortTemplatesBulkDestroyQuery {}

pub struct IpamVlanGroupsBulkUpdateQuery {}

pub struct IpamVlanGroupsCreateQuery {}

pub struct IpamVlanGroupsBulkPartialUpdateQuery {}

pub struct IpamVlanGroupsBulkDestroyQuery {}

pub struct DcimManufacturersListQuery {
    pub contact: Vec<i64>,
    pub contact__n: Vec<i64>,
    pub contact_group: Vec<i64>,
    pub contact_group__n: Vec<i64>,
    pub contact_role: Vec<i64>,
    pub contact_role__n: Vec<i64>,
    pub created: Vec<String>,
    pub created__empty: Vec<String>,
    pub created__gt: Vec<String>,
    pub created__gte: Vec<String>,
    pub created__lt: Vec<String>,
    pub created__lte: Vec<String>,
    pub created__n: Vec<String>,
    pub created_by_request: String,
    pub description: Vec<String>,
    pub description__empty: bool,
    pub description__ic: Vec<String>,
    pub description__ie: Vec<String>,
    pub description__iew: Vec<String>,
    pub description__isw: Vec<String>,
    pub description__n: Vec<String>,
    pub description__nic: Vec<String>,
    pub description__nie: Vec<String>,
    pub description__niew: Vec<String>,
    pub description__nisw: Vec<String>,
    pub id: Vec<i32>,
    pub id__empty: bool,
    pub id__gt: Vec<i32>,
    pub id__gte: Vec<i32>,
    pub id__lt: Vec<i32>,
    pub id__lte: Vec<i32>,
    pub id__n: Vec<i32>,
    pub last_updated: Vec<String>,
    pub last_updated__empty: Vec<String>,
    pub last_updated__gt: Vec<String>,
    pub last_updated__gte: Vec<String>,
    pub last_updated__lt: Vec<String>,
    pub last_updated__lte: Vec<String>,
    pub last_updated__n: Vec<String>,
    pub limit: i64,
    pub modified_by_request: String,
    pub name: Vec<String>,
    pub name__empty: bool,
    pub name__ic: Vec<String>,
    pub name__ie: Vec<String>,
    pub name__iew: Vec<String>,
    pub name__isw: Vec<String>,
    pub name__n: Vec<String>,
    pub name__nic: Vec<String>,
    pub name__nie: Vec<String>,
    pub name__niew: Vec<String>,
    pub name__nisw: Vec<String>,
    pub offset: i64,
    pub ordering: String,
    pub q: String,
    pub slug: Vec<String>,
    pub slug__empty: bool,
    pub slug__ic: Vec<String>,
    pub slug__ie: Vec<String>,
    pub slug__iew: Vec<String>,
    pub slug__isw: Vec<String>,
    pub slug__n: Vec<String>,
    pub slug__nic: Vec<String>,
    pub slug__nie: Vec<String>,
    pub slug__niew: Vec<String>,
    pub slug__nisw: Vec<String>,
    pub tag: Vec<String>,
    pub tag__n: Vec<String>,
    pub updated_by_request: String,
}

pub struct DcimManufacturersBulkUpdateQuery {}

pub struct DcimManufacturersCreateQuery {}

pub struct DcimManufacturersBulkPartialUpdateQuery {}

pub struct DcimManufacturersBulkDestroyQuery {}

pub struct DcimPlatformsListQuery {
    pub config_template_id: Vec<i64>,
    pub config_template_id__n: Vec<i64>,
    pub created: Vec<String>,
    pub created__empty: Vec<String>,
    pub created__gt: Vec<String>,
    pub created__gte: Vec<String>,
    pub created__lt: Vec<String>,
    pub created__lte: Vec<String>,
    pub created__n: Vec<String>,
    pub created_by_request: String,
    pub description: Vec<String>,
    pub description__empty: bool,
    pub description__ic: Vec<String>,
    pub description__ie: Vec<String>,
    pub description__iew: Vec<String>,
    pub description__isw: Vec<String>,
    pub description__n: Vec<String>,
    pub description__nic: Vec<String>,
    pub description__nie: Vec<String>,
    pub description__niew: Vec<String>,
    pub description__nisw: Vec<String>,
    pub id: Vec<i32>,
    pub id__empty: bool,
    pub id__gt: Vec<i32>,
    pub id__gte: Vec<i32>,
    pub id__lt: Vec<i32>,
    pub id__lte: Vec<i32>,
    pub id__n: Vec<i32>,
    pub last_updated: Vec<String>,
    pub last_updated__empty: Vec<String>,
    pub last_updated__gt: Vec<String>,
    pub last_updated__gte: Vec<String>,
    pub last_updated__lt: Vec<String>,
    pub last_updated__lte: Vec<String>,
    pub last_updated__n: Vec<String>,
    pub limit: i64,
    pub manufacturer: Vec<String>,
    pub manufacturer__n: Vec<String>,
    pub manufacturer_id: Vec<i64>,
    pub manufacturer_id__n: Vec<i64>,
    pub modified_by_request: String,
    pub name: Vec<String>,
    pub name__empty: bool,
    pub name__ic: Vec<String>,
    pub name__ie: Vec<String>,
    pub name__iew: Vec<String>,
    pub name__isw: Vec<String>,
    pub name__n: Vec<String>,
    pub name__nic: Vec<String>,
    pub name__nie: Vec<String>,
    pub name__niew: Vec<String>,
    pub name__nisw: Vec<String>,
    pub offset: i64,
    pub ordering: String,
    pub q: String,
    pub slug: Vec<String>,
    pub slug__empty: bool,
    pub slug__ic: Vec<String>,
    pub slug__ie: Vec<String>,
    pub slug__iew: Vec<String>,
    pub slug__isw: Vec<String>,
    pub slug__n: Vec<String>,
    pub slug__nic: Vec<String>,
    pub slug__nie: Vec<String>,
    pub slug__niew: Vec<String>,
    pub slug__nisw: Vec<String>,
    pub tag: Vec<String>,
    pub tag__n: Vec<String>,
    pub updated_by_request: String,
}

pub struct DcimPlatformsBulkUpdateQuery {}

pub struct DcimPlatformsCreateQuery {}

pub struct DcimPlatformsBulkPartialUpdateQuery {}

pub struct DcimPlatformsBulkDestroyQuery {}

pub struct DcimDeviceTypesRetrieveQuery {}

pub struct DcimDeviceTypesUpdateQuery {}

pub struct DcimDeviceTypesPartialUpdateQuery {}

pub struct DcimDeviceTypesDestroyQuery {}

pub struct ExtrasConfigTemplatesSyncCreateQuery {}

pub struct DcimCablesBulkUpdateQuery {}

pub struct DcimCablesCreateQuery {}

pub struct DcimCablesBulkPartialUpdateQuery {}

pub struct DcimCablesBulkDestroyQuery {}

pub struct IpamServicesBulkUpdateQuery {}

pub struct IpamServicesCreateQuery {}

pub struct IpamServicesBulkPartialUpdateQuery {}

pub struct IpamServicesBulkDestroyQuery {}

pub struct VirtualizationClusterGroupsRetrieveQuery {}

pub struct VirtualizationClusterGroupsUpdateQuery {}

pub struct VirtualizationClusterGroupsPartialUpdateQuery {}

pub struct VirtualizationClusterGroupsDestroyQuery {}

pub struct DcimPowerFeedsRetrieveQuery {}

pub struct DcimPowerFeedsUpdateQuery {}

pub struct DcimPowerFeedsPartialUpdateQuery {}

pub struct DcimPowerFeedsDestroyQuery {}

pub struct ExtrasImageAttachmentsListQuery {
    pub content_typ: String,
    pub content_typ__n: String,
    pub content_typ_id: i64,
    pub content_typ_id__n: i64,
    pub created: String,
    pub id: Vec<i32>,
    pub id__empty: bool,
    pub id__gt: Vec<i32>,
    pub id__gte: Vec<i32>,
    pub id__lt: Vec<i32>,
    pub id__lte: Vec<i32>,
    pub id__n: Vec<i32>,
    pub limit: i64,
    pub name: Vec<String>,
    pub name__empty: bool,
    pub name__ic: Vec<String>,
    pub name__ie: Vec<String>,
    pub name__iew: Vec<String>,
    pub name__isw: Vec<String>,
    pub name__n: Vec<String>,
    pub name__nic: Vec<String>,
    pub name__nie: Vec<String>,
    pub name__niew: Vec<String>,
    pub name__nisw: Vec<String>,
    pub object_id: Vec<i32>,
    pub object_id__empty: bool,
    pub object_id__gt: Vec<i32>,
    pub object_id__gte: Vec<i32>,
    pub object_id__lt: Vec<i32>,
    pub object_id__lte: Vec<i32>,
    pub object_id__n: Vec<i32>,
    pub offset: i64,
    pub ordering: String,
    pub q: String,
}

pub struct ExtrasImageAttachmentsBulkUpdateQuery {}

pub struct ExtrasImageAttachmentsCreateQuery {}

pub struct ExtrasImageAttachmentsBulkPartialUpdateQuery {}

pub struct ExtrasImageAttachmentsBulkDestroyQuery {}

pub struct DcimInventoryItemsRetrieveQuery {}

pub struct DcimInventoryItemsUpdateQuery {}

pub struct DcimInventoryItemsPartialUpdateQuery {}

pub struct DcimInventoryItemsDestroyQuery {}

pub struct DcimRearPortsPathsRetrieveQuery {}

pub struct CircuitsProviderNetworksRetrieveQuery {}

pub struct CircuitsProviderNetworksUpdateQuery {}

pub struct CircuitsProviderNetworksPartialUpdateQuery {}

pub struct CircuitsProviderNetworksDestroyQuery {}

pub struct CoreJobsListQuery {
    pub completed: String,
    pub completed__after: String,
    pub completed__before: String,
    pub created: String,
    pub created__after: String,
    pub created__before: String,
    pub id: Vec<i32>,
    pub id__empty: bool,
    pub id__gt: Vec<i32>,
    pub id__gte: Vec<i32>,
    pub id__lt: Vec<i32>,
    pub id__lte: Vec<i32>,
    pub id__n: Vec<i32>,
    pub interval: Vec<i32>,
    pub interval__empty: bool,
    pub interval__gt: Vec<i32>,
    pub interval__gte: Vec<i32>,
    pub interval__lt: Vec<i32>,
    pub interval__lte: Vec<i32>,
    pub interval__n: Vec<i32>,
    pub limit: i64,
    pub name: Vec<String>,
    pub name__empty: bool,
    pub name__ic: Vec<String>,
    pub name__ie: Vec<String>,
    pub name__iew: Vec<String>,
    pub name__isw: Vec<String>,
    pub name__n: Vec<String>,
    pub name__nic: Vec<String>,
    pub name__nie: Vec<String>,
    pub name__niew: Vec<String>,
    pub name__nisw: Vec<String>,
    pub object_id: Vec<i32>,
    pub object_id__empty: bool,
    pub object_id__gt: Vec<i32>,
    pub object_id__gte: Vec<i32>,
    pub object_id__lt: Vec<i32>,
    pub object_id__lte: Vec<i32>,
    pub object_id__n: Vec<i32>,
    pub object_typ: i64,
    pub object_typ__n: i64,
    pub offset: i64,
    pub ordering: String,
    pub q: String,
    pub scheduled: String,
    pub scheduled__after: String,
    pub scheduled__before: String,
    pub started: String,
    pub started__after: String,
    pub started__before: String,
    pub status: Vec<String>,
    pub status__n: Vec<String>,
    pub user: i64,
    pub user__n: i64,
}

pub struct DcimRacksRetrieveQuery {}

pub struct DcimRacksUpdateQuery {}

pub struct DcimRacksPartialUpdateQuery {}

pub struct DcimRacksDestroyQuery {}

pub struct CircuitsCircuitsListQuery {
    pub cid: Vec<String>,
    pub cid__empty: bool,
    pub cid__ic: Vec<String>,
    pub cid__ie: Vec<String>,
    pub cid__iew: Vec<String>,
    pub cid__isw: Vec<String>,
    pub cid__n: Vec<String>,
    pub cid__nic: Vec<String>,
    pub cid__nie: Vec<String>,
    pub cid__niew: Vec<String>,
    pub cid__nisw: Vec<String>,
    pub commit_rate: Vec<i32>,
    pub commit_rate__empty: bool,
    pub commit_rate__gt: Vec<i32>,
    pub commit_rate__gte: Vec<i32>,
    pub commit_rate__lt: Vec<i32>,
    pub commit_rate__lte: Vec<i32>,
    pub commit_rate__n: Vec<i32>,
    pub contact: Vec<i64>,
    pub contact__n: Vec<i64>,
    pub contact_group: Vec<i64>,
    pub contact_group__n: Vec<i64>,
    pub contact_role: Vec<i64>,
    pub contact_role__n: Vec<i64>,
    pub created: Vec<String>,
    pub created__empty: Vec<String>,
    pub created__gt: Vec<String>,
    pub created__gte: Vec<String>,
    pub created__lt: Vec<String>,
    pub created__lte: Vec<String>,
    pub created__n: Vec<String>,
    pub created_by_request: String,
    pub description: Vec<String>,
    pub description__empty: bool,
    pub description__ic: Vec<String>,
    pub description__ie: Vec<String>,
    pub description__iew: Vec<String>,
    pub description__isw: Vec<String>,
    pub description__n: Vec<String>,
    pub description__nic: Vec<String>,
    pub description__nie: Vec<String>,
    pub description__niew: Vec<String>,
    pub description__nisw: Vec<String>,
    pub id: Vec<i32>,
    pub id__empty: bool,
    pub id__gt: Vec<i32>,
    pub id__gte: Vec<i32>,
    pub id__lt: Vec<i32>,
    pub id__lte: Vec<i32>,
    pub id__n: Vec<i32>,
    pub install_date: Vec<String>,
    pub install_date__empty: bool,
    pub install_date__gt: Vec<String>,
    pub install_date__gte: Vec<String>,
    pub install_date__lt: Vec<String>,
    pub install_date__lte: Vec<String>,
    pub install_date__n: Vec<String>,
    pub last_updated: Vec<String>,
    pub last_updated__empty: Vec<String>,
    pub last_updated__gt: Vec<String>,
    pub last_updated__gte: Vec<String>,
    pub last_updated__lt: Vec<String>,
    pub last_updated__lte: Vec<String>,
    pub last_updated__n: Vec<String>,
    pub limit: i64,
    pub modified_by_request: String,
    pub offset: i64,
    pub ordering: String,
    pub provider: Vec<String>,
    pub provider__n: Vec<String>,
    pub provider_account_id: Vec<i64>,
    pub provider_account_id__n: Vec<i64>,
    pub provider_id: Vec<i64>,
    pub provider_id__n: Vec<i64>,
    pub provider_network_id: Vec<i64>,
    pub provider_network_id__n: Vec<i64>,
    pub q: String,
    pub region: Vec<i64>,
    pub region__n: Vec<i64>,
    pub region_id: Vec<i64>,
    pub region_id__n: Vec<i64>,
    pub site: Vec<String>,
    pub site__n: Vec<String>,
    pub site_group: Vec<i64>,
    pub site_group__n: Vec<i64>,
    pub site_group_id: Vec<i64>,
    pub site_group_id__n: Vec<i64>,
    pub site_id: Vec<i64>,
    pub site_id__n: Vec<i64>,
    pub status: Vec<String>,
    pub status__n: Vec<String>,
    pub tag: Vec<String>,
    pub tag__n: Vec<String>,
    pub tenant: Vec<String>,
    pub tenant__n: Vec<String>,
    pub tenant_group: Vec<i64>,
    pub tenant_group__n: Vec<i64>,
    pub tenant_group_id: Vec<i64>,
    pub tenant_group_id__n: Vec<i64>,
    pub tenant_id: Vec<i64>,
    pub tenant_id__n: Vec<i64>,
    pub termination_date: Vec<String>,
    pub termination_date__empty: bool,
    pub termination_date__gt: Vec<String>,
    pub termination_date__gte: Vec<String>,
    pub termination_date__lt: Vec<String>,
    pub termination_date__lte: Vec<String>,
    pub termination_date__n: Vec<String>,
    pub typ: Vec<String>,
    pub typ__n: Vec<String>,
    pub typ_id: Vec<i64>,
    pub typ_id__n: Vec<i64>,
    pub updated_by_request: String,
}

pub struct CircuitsCircuitsBulkUpdateQuery {}

pub struct CircuitsCircuitsCreateQuery {}

pub struct CircuitsCircuitsBulkPartialUpdateQuery {}

pub struct CircuitsCircuitsBulkDestroyQuery {}

pub struct UsersGroupsListQuery {
    pub id: Vec<i32>,
    pub id__empty: bool,
    pub id__gt: Vec<i32>,
    pub id__gte: Vec<i32>,
    pub id__lt: Vec<i32>,
    pub id__lte: Vec<i32>,
    pub id__n: Vec<i32>,
    pub limit: i64,
    pub name: Vec<String>,
    pub name__empty: bool,
    pub name__ic: Vec<String>,
    pub name__ie: Vec<String>,
    pub name__iew: Vec<String>,
    pub name__isw: Vec<String>,
    pub name__n: Vec<String>,
    pub name__nic: Vec<String>,
    pub name__nie: Vec<String>,
    pub name__niew: Vec<String>,
    pub name__nisw: Vec<String>,
    pub offset: i64,
    pub ordering: String,
    pub q: String,
}

pub struct UsersGroupsBulkUpdateQuery {}

pub struct UsersGroupsCreateQuery {}

pub struct UsersGroupsBulkPartialUpdateQuery {}

pub struct UsersGroupsBulkDestroyQuery {}

pub struct DcimPowerPortsRetrieveQuery {}

pub struct DcimPowerPortsUpdateQuery {}

pub struct DcimPowerPortsPartialUpdateQuery {}

pub struct DcimPowerPortsDestroyQuery {}

pub struct DcimSitesRetrieveQuery {}

pub struct DcimSitesUpdateQuery {}

pub struct DcimSitesPartialUpdateQuery {}

pub struct DcimSitesDestroyQuery {}

pub struct TenancyContactRolesRetrieveQuery {}

pub struct TenancyContactRolesUpdateQuery {}

pub struct TenancyContactRolesPartialUpdateQuery {}

pub struct TenancyContactRolesDestroyQuery {}

pub struct UsersPermissionsListQuery {
    pub can_add: bool,
    pub can_change: bool,
    pub can_delete: bool,
    pub can_view: bool,
    pub description: Vec<String>,
    pub description__empty: bool,
    pub description__ic: Vec<String>,
    pub description__ie: Vec<String>,
    pub description__iew: Vec<String>,
    pub description__isw: Vec<String>,
    pub description__n: Vec<String>,
    pub description__nic: Vec<String>,
    pub description__nie: Vec<String>,
    pub description__niew: Vec<String>,
    pub description__nisw: Vec<String>,
    pub enabled: bool,
    pub group: Vec<String>,
    pub group__n: Vec<String>,
    pub group_id: Vec<i64>,
    pub group_id__n: Vec<i64>,
    pub id: Vec<i32>,
    pub id__empty: bool,
    pub id__gt: Vec<i32>,
    pub id__gte: Vec<i32>,
    pub id__lt: Vec<i32>,
    pub id__lte: Vec<i32>,
    pub id__n: Vec<i32>,
    pub limit: i64,
    pub name: Vec<String>,
    pub name__empty: bool,
    pub name__ic: Vec<String>,
    pub name__ie: Vec<String>,
    pub name__iew: Vec<String>,
    pub name__isw: Vec<String>,
    pub name__n: Vec<String>,
    pub name__nic: Vec<String>,
    pub name__nie: Vec<String>,
    pub name__niew: Vec<String>,
    pub name__nisw: Vec<String>,
    pub object_typs: Vec<i64>,
    pub object_typs__n: Vec<i64>,
    pub offset: i64,
    pub ordering: String,
    pub q: String,
    pub user: Vec<String>,
    pub user__n: Vec<String>,
    pub user_id: Vec<i64>,
    pub user_id__n: Vec<i64>,
}

pub struct UsersPermissionsBulkUpdateQuery {}

pub struct UsersPermissionsCreateQuery {}

pub struct UsersPermissionsBulkPartialUpdateQuery {}

pub struct UsersPermissionsBulkDestroyQuery {}

pub struct IpamL2VpnTerminationsRetrieveQuery {}

pub struct IpamL2VpnTerminationsUpdateQuery {}

pub struct IpamL2VpnTerminationsPartialUpdateQuery {}

pub struct IpamL2VpnTerminationsDestroyQuery {}

pub struct UsersConfigRetrieveQuery {}

pub struct TenancyContactAssignmentsRetrieveQuery {}

pub struct TenancyContactAssignmentsUpdateQuery {}

pub struct TenancyContactAssignmentsPartialUpdateQuery {}

pub struct TenancyContactAssignmentsDestroyQuery {}

pub struct ExtrasJournalEntriesListQuery {
    pub assigned_object_id: Vec<i32>,
    pub assigned_object_id__empty: bool,
    pub assigned_object_id__gt: Vec<i32>,
    pub assigned_object_id__gte: Vec<i32>,
    pub assigned_object_id__lt: Vec<i32>,
    pub assigned_object_id__lte: Vec<i32>,
    pub assigned_object_id__n: Vec<i32>,
    pub assigned_object_typ: String,
    pub assigned_object_typ__n: String,
    pub assigned_object_typ_id: Vec<i64>,
    pub assigned_object_typ_id__n: Vec<i64>,
    pub created_after: String,
    pub created_before: String,
    pub created_by: Vec<String>,
    pub created_by__n: Vec<String>,
    pub created_by_id: Vec<i64>,
    pub created_by_id__n: Vec<i64>,
    pub created_by_request: String,
    pub id: Vec<i32>,
    pub id__empty: bool,
    pub id__gt: Vec<i32>,
    pub id__gte: Vec<i32>,
    pub id__lt: Vec<i32>,
    pub id__lte: Vec<i32>,
    pub id__n: Vec<i32>,
    pub kind: Vec<String>,
    pub kind__n: Vec<String>,
    pub last_updated: Vec<String>,
    pub last_updated__empty: Vec<String>,
    pub last_updated__gt: Vec<String>,
    pub last_updated__gte: Vec<String>,
    pub last_updated__lt: Vec<String>,
    pub last_updated__lte: Vec<String>,
    pub last_updated__n: Vec<String>,
    pub limit: i64,
    pub modified_by_request: String,
    pub offset: i64,
    pub ordering: String,
    pub q: String,
    pub tag: Vec<String>,
    pub tag__n: Vec<String>,
    pub updated_by_request: String,
}

pub struct ExtrasJournalEntriesBulkUpdateQuery {}

pub struct ExtrasJournalEntriesCreateQuery {}

pub struct ExtrasJournalEntriesBulkPartialUpdateQuery {}

pub struct ExtrasJournalEntriesBulkDestroyQuery {}

pub struct TenancyTenantGroupsListQuery {
    pub created: Vec<String>,
    pub created__empty: Vec<String>,
    pub created__gt: Vec<String>,
    pub created__gte: Vec<String>,
    pub created__lt: Vec<String>,
    pub created__lte: Vec<String>,
    pub created__n: Vec<String>,
    pub created_by_request: String,
    pub description: Vec<String>,
    pub description__empty: bool,
    pub description__ic: Vec<String>,
    pub description__ie: Vec<String>,
    pub description__iew: Vec<String>,
    pub description__isw: Vec<String>,
    pub description__n: Vec<String>,
    pub description__nic: Vec<String>,
    pub description__nie: Vec<String>,
    pub description__niew: Vec<String>,
    pub description__nisw: Vec<String>,
    pub id: Vec<i32>,
    pub id__empty: bool,
    pub id__gt: Vec<i32>,
    pub id__gte: Vec<i32>,
    pub id__lt: Vec<i32>,
    pub id__lte: Vec<i32>,
    pub id__n: Vec<i32>,
    pub last_updated: Vec<String>,
    pub last_updated__empty: Vec<String>,
    pub last_updated__gt: Vec<String>,
    pub last_updated__gte: Vec<String>,
    pub last_updated__lt: Vec<String>,
    pub last_updated__lte: Vec<String>,
    pub last_updated__n: Vec<String>,
    pub limit: i64,
    pub modified_by_request: String,
    pub name: Vec<String>,
    pub name__empty: bool,
    pub name__ic: Vec<String>,
    pub name__ie: Vec<String>,
    pub name__iew: Vec<String>,
    pub name__isw: Vec<String>,
    pub name__n: Vec<String>,
    pub name__nic: Vec<String>,
    pub name__nie: Vec<String>,
    pub name__niew: Vec<String>,
    pub name__nisw: Vec<String>,
    pub offset: i64,
    pub ordering: String,
    pub parent: Vec<String>,
    pub parent__n: Vec<String>,
    pub parent_id: Vec<i64>,
    pub parent_id__n: Vec<i64>,
    pub q: String,
    pub slug: Vec<String>,
    pub slug__empty: bool,
    pub slug__ic: Vec<String>,
    pub slug__ie: Vec<String>,
    pub slug__iew: Vec<String>,
    pub slug__isw: Vec<String>,
    pub slug__n: Vec<String>,
    pub slug__nic: Vec<String>,
    pub slug__nie: Vec<String>,
    pub slug__niew: Vec<String>,
    pub slug__nisw: Vec<String>,
    pub tag: Vec<String>,
    pub tag__n: Vec<String>,
    pub updated_by_request: String,
}

pub struct TenancyTenantGroupsBulkUpdateQuery {}

pub struct TenancyTenantGroupsCreateQuery {}

pub struct TenancyTenantGroupsBulkPartialUpdateQuery {}

pub struct TenancyTenantGroupsBulkDestroyQuery {}

pub struct CoreJobsRetrieveQuery {}

pub struct DcimInterfaceTemplatesRetrieveQuery {}

pub struct DcimInterfaceTemplatesUpdateQuery {}

pub struct DcimInterfaceTemplatesPartialUpdateQuery {}

pub struct DcimInterfaceTemplatesDestroyQuery {}

pub struct VirtualizationVirtualMachinesRetrieveQuery {}

pub struct VirtualizationVirtualMachinesUpdateQuery {}

pub struct VirtualizationVirtualMachinesPartialUpdateQuery {}

pub struct VirtualizationVirtualMachinesDestroyQuery {}

pub struct DcimPowerPortsListQuery {
    pub allocated_draw: Vec<i32>,
    pub allocated_draw__empty: bool,
    pub allocated_draw__gt: Vec<i32>,
    pub allocated_draw__gte: Vec<i32>,
    pub allocated_draw__lt: Vec<i32>,
    pub allocated_draw__lte: Vec<i32>,
    pub allocated_draw__n: Vec<i32>,
    pub cable_end: String,
    pub cable_end__n: String,
    pub cabled: bool,
    pub connected: bool,
    pub created: Vec<String>,
    pub created__empty: Vec<String>,
    pub created__gt: Vec<String>,
    pub created__gte: Vec<String>,
    pub created__lt: Vec<String>,
    pub created__lte: Vec<String>,
    pub created__n: Vec<String>,
    pub created_by_request: String,
    pub description: Vec<String>,
    pub description__empty: bool,
    pub description__ic: Vec<String>,
    pub description__ie: Vec<String>,
    pub description__iew: Vec<String>,
    pub description__isw: Vec<String>,
    pub description__n: Vec<String>,
    pub description__nic: Vec<String>,
    pub description__nie: Vec<String>,
    pub description__niew: Vec<String>,
    pub description__nisw: Vec<String>,
    pub device: Vec<String>,
    pub device__n: Vec<String>,
    pub device_id: Vec<i64>,
    pub device_id__n: Vec<i64>,
    pub device_role: Vec<String>,
    pub device_role__n: Vec<String>,
    pub device_role_id: Vec<i64>,
    pub device_role_id__n: Vec<i64>,
    pub device_typ: Vec<String>,
    pub device_typ__n: Vec<String>,
    pub device_typ_id: Vec<i64>,
    pub device_typ_id__n: Vec<i64>,
    pub id: Vec<i32>,
    pub id__empty: bool,
    pub id__gt: Vec<i32>,
    pub id__gte: Vec<i32>,
    pub id__lt: Vec<i32>,
    pub id__lte: Vec<i32>,
    pub id__n: Vec<i32>,
    pub label: Vec<String>,
    pub label__empty: bool,
    pub label__ic: Vec<String>,
    pub label__ie: Vec<String>,
    pub label__iew: Vec<String>,
    pub label__isw: Vec<String>,
    pub label__n: Vec<String>,
    pub label__nic: Vec<String>,
    pub label__nie: Vec<String>,
    pub label__niew: Vec<String>,
    pub label__nisw: Vec<String>,
    pub last_updated: Vec<String>,
    pub last_updated__empty: Vec<String>,
    pub last_updated__gt: Vec<String>,
    pub last_updated__gte: Vec<String>,
    pub last_updated__lt: Vec<String>,
    pub last_updated__lte: Vec<String>,
    pub last_updated__n: Vec<String>,
    pub limit: i64,
    pub location: Vec<String>,
    pub location__n: Vec<String>,
    pub location_id: Vec<i64>,
    pub location_id__n: Vec<i64>,
    pub maximum_draw: Vec<i32>,
    pub maximum_draw__empty: bool,
    pub maximum_draw__gt: Vec<i32>,
    pub maximum_draw__gte: Vec<i32>,
    pub maximum_draw__lt: Vec<i32>,
    pub maximum_draw__lte: Vec<i32>,
    pub maximum_draw__n: Vec<i32>,
    pub modified_by_request: String,
    pub module_id: Vec<i64>,
    pub module_id__n: Vec<i64>,
    pub name: Vec<String>,
    pub name__empty: bool,
    pub name__ic: Vec<String>,
    pub name__ie: Vec<String>,
    pub name__iew: Vec<String>,
    pub name__isw: Vec<String>,
    pub name__n: Vec<String>,
    pub name__nic: Vec<String>,
    pub name__nie: Vec<String>,
    pub name__niew: Vec<String>,
    pub name__nisw: Vec<String>,
    pub occupied: bool,
    pub offset: i64,
    pub ordering: String,
    pub q: String,
    pub rack: Vec<String>,
    pub rack__n: Vec<String>,
    pub rack_id: Vec<i64>,
    pub rack_id__n: Vec<i64>,
    pub region: Vec<i64>,
    pub region__n: Vec<i64>,
    pub region_id: Vec<i64>,
    pub region_id__n: Vec<i64>,
    pub role: Vec<String>,
    pub role__n: Vec<String>,
    pub role_id: Vec<i64>,
    pub role_id__n: Vec<i64>,
    pub site: Vec<String>,
    pub site__n: Vec<String>,
    pub site_group: Vec<i64>,
    pub site_group__n: Vec<i64>,
    pub site_group_id: Vec<i64>,
    pub site_group_id__n: Vec<i64>,
    pub site_id: Vec<i64>,
    pub site_id__n: Vec<i64>,
    pub tag: Vec<String>,
    pub tag__n: Vec<String>,
    pub typ: Vec<String>,
    pub typ__n: Vec<String>,
    pub updated_by_request: String,
    pub virtual_chassis: Vec<String>,
    pub virtual_chassis__n: Vec<String>,
    pub virtual_chassis_id: Vec<i64>,
    pub virtual_chassis_id__n: Vec<i64>,
}

pub struct DcimPowerPortsBulkUpdateQuery {}

pub struct DcimPowerPortsCreateQuery {}

pub struct DcimPowerPortsBulkPartialUpdateQuery {}

pub struct DcimPowerPortsBulkDestroyQuery {}

pub struct DcimRearPortsListQuery {
    pub cable_end: String,
    pub cable_end__n: String,
    pub cabled: bool,
    pub color: Vec<String>,
    pub color__empty: bool,
    pub color__ic: Vec<String>,
    pub color__ie: Vec<String>,
    pub color__iew: Vec<String>,
    pub color__isw: Vec<String>,
    pub color__n: Vec<String>,
    pub color__nic: Vec<String>,
    pub color__nie: Vec<String>,
    pub color__niew: Vec<String>,
    pub color__nisw: Vec<String>,
    pub created: Vec<String>,
    pub created__empty: Vec<String>,
    pub created__gt: Vec<String>,
    pub created__gte: Vec<String>,
    pub created__lt: Vec<String>,
    pub created__lte: Vec<String>,
    pub created__n: Vec<String>,
    pub created_by_request: String,
    pub description: Vec<String>,
    pub description__empty: bool,
    pub description__ic: Vec<String>,
    pub description__ie: Vec<String>,
    pub description__iew: Vec<String>,
    pub description__isw: Vec<String>,
    pub description__n: Vec<String>,
    pub description__nic: Vec<String>,
    pub description__nie: Vec<String>,
    pub description__niew: Vec<String>,
    pub description__nisw: Vec<String>,
    pub device: Vec<String>,
    pub device__n: Vec<String>,
    pub device_id: Vec<i64>,
    pub device_id__n: Vec<i64>,
    pub device_role: Vec<String>,
    pub device_role__n: Vec<String>,
    pub device_role_id: Vec<i64>,
    pub device_role_id__n: Vec<i64>,
    pub device_typ: Vec<String>,
    pub device_typ__n: Vec<String>,
    pub device_typ_id: Vec<i64>,
    pub device_typ_id__n: Vec<i64>,
    pub id: Vec<i32>,
    pub id__empty: bool,
    pub id__gt: Vec<i32>,
    pub id__gte: Vec<i32>,
    pub id__lt: Vec<i32>,
    pub id__lte: Vec<i32>,
    pub id__n: Vec<i32>,
    pub label: Vec<String>,
    pub label__empty: bool,
    pub label__ic: Vec<String>,
    pub label__ie: Vec<String>,
    pub label__iew: Vec<String>,
    pub label__isw: Vec<String>,
    pub label__n: Vec<String>,
    pub label__nic: Vec<String>,
    pub label__nie: Vec<String>,
    pub label__niew: Vec<String>,
    pub label__nisw: Vec<String>,
    pub last_updated: Vec<String>,
    pub last_updated__empty: Vec<String>,
    pub last_updated__gt: Vec<String>,
    pub last_updated__gte: Vec<String>,
    pub last_updated__lt: Vec<String>,
    pub last_updated__lte: Vec<String>,
    pub last_updated__n: Vec<String>,
    pub limit: i64,
    pub location: Vec<String>,
    pub location__n: Vec<String>,
    pub location_id: Vec<i64>,
    pub location_id__n: Vec<i64>,
    pub modified_by_request: String,
    pub module_id: Vec<i64>,
    pub module_id__n: Vec<i64>,
    pub name: Vec<String>,
    pub name__empty: bool,
    pub name__ic: Vec<String>,
    pub name__ie: Vec<String>,
    pub name__iew: Vec<String>,
    pub name__isw: Vec<String>,
    pub name__n: Vec<String>,
    pub name__nic: Vec<String>,
    pub name__nie: Vec<String>,
    pub name__niew: Vec<String>,
    pub name__nisw: Vec<String>,
    pub occupied: bool,
    pub offset: i64,
    pub ordering: String,
    pub positions: Vec<i32>,
    pub positions__empty: bool,
    pub positions__gt: Vec<i32>,
    pub positions__gte: Vec<i32>,
    pub positions__lt: Vec<i32>,
    pub positions__lte: Vec<i32>,
    pub positions__n: Vec<i32>,
    pub q: String,
    pub rack: Vec<String>,
    pub rack__n: Vec<String>,
    pub rack_id: Vec<i64>,
    pub rack_id__n: Vec<i64>,
    pub region: Vec<i64>,
    pub region__n: Vec<i64>,
    pub region_id: Vec<i64>,
    pub region_id__n: Vec<i64>,
    pub role: Vec<String>,
    pub role__n: Vec<String>,
    pub role_id: Vec<i64>,
    pub role_id__n: Vec<i64>,
    pub site: Vec<String>,
    pub site__n: Vec<String>,
    pub site_group: Vec<i64>,
    pub site_group__n: Vec<i64>,
    pub site_group_id: Vec<i64>,
    pub site_group_id__n: Vec<i64>,
    pub site_id: Vec<i64>,
    pub site_id__n: Vec<i64>,
    pub tag: Vec<String>,
    pub tag__n: Vec<String>,
    pub typ: Vec<String>,
    pub typ__n: Vec<String>,
    pub updated_by_request: String,
    pub virtual_chassis: Vec<String>,
    pub virtual_chassis__n: Vec<String>,
    pub virtual_chassis_id: Vec<i64>,
    pub virtual_chassis_id__n: Vec<i64>,
}

pub struct DcimRearPortsBulkUpdateQuery {}

pub struct DcimRearPortsCreateQuery {}

pub struct DcimRearPortsBulkPartialUpdateQuery {}

pub struct DcimRearPortsBulkDestroyQuery {}

pub struct DcimConsolePortsRetrieveQuery {}

pub struct DcimConsolePortsUpdateQuery {}

pub struct DcimConsolePortsPartialUpdateQuery {}

pub struct DcimConsolePortsDestroyQuery {}

pub struct CircuitsCircuitTerminationsPathsRetrieveQuery {}

pub struct IpamFhrpGroupAssignmentsListQuery {
    pub created: Vec<String>,
    pub created__empty: Vec<String>,
    pub created__gt: Vec<String>,
    pub created__gte: Vec<String>,
    pub created__lt: Vec<String>,
    pub created__lte: Vec<String>,
    pub created__n: Vec<String>,
    pub created_by_request: String,
    pub device: Vec<String>,
    pub device_id: Vec<i32>,
    pub group_id: Vec<i64>,
    pub group_id__n: Vec<i64>,
    pub id: Vec<i32>,
    pub id__empty: bool,
    pub id__gt: Vec<i32>,
    pub id__gte: Vec<i32>,
    pub id__lt: Vec<i32>,
    pub id__lte: Vec<i32>,
    pub id__n: Vec<i32>,
    pub interface_id: Vec<i32>,
    pub interface_id__empty: bool,
    pub interface_id__gt: Vec<i32>,
    pub interface_id__gte: Vec<i32>,
    pub interface_id__lt: Vec<i32>,
    pub interface_id__lte: Vec<i32>,
    pub interface_id__n: Vec<i32>,
    pub interface_typ: String,
    pub interface_typ__n: String,
    pub last_updated: Vec<String>,
    pub last_updated__empty: Vec<String>,
    pub last_updated__gt: Vec<String>,
    pub last_updated__gte: Vec<String>,
    pub last_updated__lt: Vec<String>,
    pub last_updated__lte: Vec<String>,
    pub last_updated__n: Vec<String>,
    pub limit: i64,
    pub modified_by_request: String,
    pub offset: i64,
    pub ordering: String,
    pub priority: Vec<i32>,
    pub priority__empty: bool,
    pub priority__gt: Vec<i32>,
    pub priority__gte: Vec<i32>,
    pub priority__lt: Vec<i32>,
    pub priority__lte: Vec<i32>,
    pub priority__n: Vec<i32>,
    pub updated_by_request: String,
    pub virtual_machine: Vec<String>,
    pub virtual_machine_id: Vec<i32>,
}

pub struct IpamFhrpGroupAssignmentsBulkUpdateQuery {}

pub struct IpamFhrpGroupAssignmentsCreateQuery {}

pub struct IpamFhrpGroupAssignmentsBulkPartialUpdateQuery {}

pub struct IpamFhrpGroupAssignmentsBulkDestroyQuery {}

pub struct TenancyTenantGroupsRetrieveQuery {}

pub struct TenancyTenantGroupsUpdateQuery {}

pub struct TenancyTenantGroupsPartialUpdateQuery {}

pub struct TenancyTenantGroupsDestroyQuery {}

pub struct DcimLocationsRetrieveQuery {}

pub struct DcimLocationsUpdateQuery {}

pub struct DcimLocationsPartialUpdateQuery {}

pub struct DcimLocationsDestroyQuery {}

pub struct ExtrasExportTemplatesRetrieveQuery {}

pub struct ExtrasExportTemplatesUpdateQuery {}

pub struct ExtrasExportTemplatesPartialUpdateQuery {}

pub struct ExtrasExportTemplatesDestroyQuery {}

pub struct IpamPrefixesBulkUpdateQuery {}

pub struct IpamPrefixesCreateQuery {}

pub struct IpamPrefixesBulkPartialUpdateQuery {}

pub struct IpamPrefixesBulkDestroyQuery {}

pub struct StatusRetrieveQuery {}

pub struct ExtrasCustomFieldsRetrieveQuery {}

pub struct ExtrasCustomFieldsUpdateQuery {}

pub struct ExtrasCustomFieldsPartialUpdateQuery {}

pub struct ExtrasCustomFieldsDestroyQuery {}

pub struct TenancyContactRolesListQuery {
    pub created: Vec<String>,
    pub created__empty: Vec<String>,
    pub created__gt: Vec<String>,
    pub created__gte: Vec<String>,
    pub created__lt: Vec<String>,
    pub created__lte: Vec<String>,
    pub created__n: Vec<String>,
    pub created_by_request: String,
    pub description: Vec<String>,
    pub description__empty: bool,
    pub description__ic: Vec<String>,
    pub description__ie: Vec<String>,
    pub description__iew: Vec<String>,
    pub description__isw: Vec<String>,
    pub description__n: Vec<String>,
    pub description__nic: Vec<String>,
    pub description__nie: Vec<String>,
    pub description__niew: Vec<String>,
    pub description__nisw: Vec<String>,
    pub id: Vec<i32>,
    pub id__empty: bool,
    pub id__gt: Vec<i32>,
    pub id__gte: Vec<i32>,
    pub id__lt: Vec<i32>,
    pub id__lte: Vec<i32>,
    pub id__n: Vec<i32>,
    pub last_updated: Vec<String>,
    pub last_updated__empty: Vec<String>,
    pub last_updated__gt: Vec<String>,
    pub last_updated__gte: Vec<String>,
    pub last_updated__lt: Vec<String>,
    pub last_updated__lte: Vec<String>,
    pub last_updated__n: Vec<String>,
    pub limit: i64,
    pub modified_by_request: String,
    pub name: Vec<String>,
    pub name__empty: bool,
    pub name__ic: Vec<String>,
    pub name__ie: Vec<String>,
    pub name__iew: Vec<String>,
    pub name__isw: Vec<String>,
    pub name__n: Vec<String>,
    pub name__nic: Vec<String>,
    pub name__nie: Vec<String>,
    pub name__niew: Vec<String>,
    pub name__nisw: Vec<String>,
    pub offset: i64,
    pub ordering: String,
    pub q: String,
    pub slug: Vec<String>,
    pub slug__empty: bool,
    pub slug__ic: Vec<String>,
    pub slug__ie: Vec<String>,
    pub slug__iew: Vec<String>,
    pub slug__isw: Vec<String>,
    pub slug__n: Vec<String>,
    pub slug__nic: Vec<String>,
    pub slug__nie: Vec<String>,
    pub slug__niew: Vec<String>,
    pub slug__nisw: Vec<String>,
    pub tag: Vec<String>,
    pub tag__n: Vec<String>,
    pub updated_by_request: String,
}

pub struct TenancyContactRolesBulkUpdateQuery {}

pub struct TenancyContactRolesCreateQuery {}

pub struct TenancyContactRolesBulkPartialUpdateQuery {}

pub struct TenancyContactRolesBulkDestroyQuery {}

pub struct TenancyContactsListQuery {
    pub address: Vec<String>,
    pub address__empty: bool,
    pub address__ic: Vec<String>,
    pub address__ie: Vec<String>,
    pub address__iew: Vec<String>,
    pub address__isw: Vec<String>,
    pub address__n: Vec<String>,
    pub address__nic: Vec<String>,
    pub address__nie: Vec<String>,
    pub address__niew: Vec<String>,
    pub address__nisw: Vec<String>,
    pub created: Vec<String>,
    pub created__empty: Vec<String>,
    pub created__gt: Vec<String>,
    pub created__gte: Vec<String>,
    pub created__lt: Vec<String>,
    pub created__lte: Vec<String>,
    pub created__n: Vec<String>,
    pub created_by_request: String,
    pub email: Vec<String>,
    pub email__empty: bool,
    pub email__ic: Vec<String>,
    pub email__ie: Vec<String>,
    pub email__iew: Vec<String>,
    pub email__isw: Vec<String>,
    pub email__n: Vec<String>,
    pub email__nic: Vec<String>,
    pub email__nie: Vec<String>,
    pub email__niew: Vec<String>,
    pub email__nisw: Vec<String>,
    pub group: Vec<i64>,
    pub group__n: Vec<i64>,
    pub group_id: Vec<i64>,
    pub group_id__n: Vec<i64>,
    pub id: Vec<i32>,
    pub id__empty: bool,
    pub id__gt: Vec<i32>,
    pub id__gte: Vec<i32>,
    pub id__lt: Vec<i32>,
    pub id__lte: Vec<i32>,
    pub id__n: Vec<i32>,
    pub last_updated: Vec<String>,
    pub last_updated__empty: Vec<String>,
    pub last_updated__gt: Vec<String>,
    pub last_updated__gte: Vec<String>,
    pub last_updated__lt: Vec<String>,
    pub last_updated__lte: Vec<String>,
    pub last_updated__n: Vec<String>,
    pub limit: i64,
    pub link: Vec<String>,
    pub link__empty: bool,
    pub link__ic: Vec<String>,
    pub link__ie: Vec<String>,
    pub link__iew: Vec<String>,
    pub link__isw: Vec<String>,
    pub link__n: Vec<String>,
    pub link__nic: Vec<String>,
    pub link__nie: Vec<String>,
    pub link__niew: Vec<String>,
    pub link__nisw: Vec<String>,
    pub modified_by_request: String,
    pub name: Vec<String>,
    pub name__empty: bool,
    pub name__ic: Vec<String>,
    pub name__ie: Vec<String>,
    pub name__iew: Vec<String>,
    pub name__isw: Vec<String>,
    pub name__n: Vec<String>,
    pub name__nic: Vec<String>,
    pub name__nie: Vec<String>,
    pub name__niew: Vec<String>,
    pub name__nisw: Vec<String>,
    pub offset: i64,
    pub ordering: String,
    pub phone: Vec<String>,
    pub phone__empty: bool,
    pub phone__ic: Vec<String>,
    pub phone__ie: Vec<String>,
    pub phone__iew: Vec<String>,
    pub phone__isw: Vec<String>,
    pub phone__n: Vec<String>,
    pub phone__nic: Vec<String>,
    pub phone__nie: Vec<String>,
    pub phone__niew: Vec<String>,
    pub phone__nisw: Vec<String>,
    pub q: String,
    pub tag: Vec<String>,
    pub tag__n: Vec<String>,
    pub title: Vec<String>,
    pub title__empty: bool,
    pub title__ic: Vec<String>,
    pub title__ie: Vec<String>,
    pub title__iew: Vec<String>,
    pub title__isw: Vec<String>,
    pub title__n: Vec<String>,
    pub title__nic: Vec<String>,
    pub title__nie: Vec<String>,
    pub title__niew: Vec<String>,
    pub title__nisw: Vec<String>,
    pub updated_by_request: String,
}

pub struct TenancyContactsBulkUpdateQuery {}

pub struct TenancyContactsCreateQuery {}

pub struct TenancyContactsBulkPartialUpdateQuery {}

pub struct TenancyContactsBulkDestroyQuery {}

pub struct DcimModulesRetrieveQuery {}

pub struct DcimModulesUpdateQuery {}

pub struct DcimModulesPartialUpdateQuery {}

pub struct DcimModulesDestroyQuery {}

pub struct DcimPowerFeedsListQuery {
    pub amperage: Vec<i32>,
    pub amperage__empty: bool,
    pub amperage__gt: Vec<i32>,
    pub amperage__gte: Vec<i32>,
    pub amperage__lt: Vec<i32>,
    pub amperage__lte: Vec<i32>,
    pub amperage__n: Vec<i32>,
    pub cable_end: String,
    pub cable_end__n: String,
    pub cabled: bool,
    pub connected: bool,
    pub created: Vec<String>,
    pub created__empty: Vec<String>,
    pub created__gt: Vec<String>,
    pub created__gte: Vec<String>,
    pub created__lt: Vec<String>,
    pub created__lte: Vec<String>,
    pub created__n: Vec<String>,
    pub created_by_request: String,
    pub id: Vec<i32>,
    pub id__empty: bool,
    pub id__gt: Vec<i32>,
    pub id__gte: Vec<i32>,
    pub id__lt: Vec<i32>,
    pub id__lte: Vec<i32>,
    pub id__n: Vec<i32>,
    pub last_updated: Vec<String>,
    pub last_updated__empty: Vec<String>,
    pub last_updated__gt: Vec<String>,
    pub last_updated__gte: Vec<String>,
    pub last_updated__lt: Vec<String>,
    pub last_updated__lte: Vec<String>,
    pub last_updated__n: Vec<String>,
    pub limit: i64,
    pub max_utilization: Vec<i32>,
    pub max_utilization__empty: bool,
    pub max_utilization__gt: Vec<i32>,
    pub max_utilization__gte: Vec<i32>,
    pub max_utilization__lt: Vec<i32>,
    pub max_utilization__lte: Vec<i32>,
    pub max_utilization__n: Vec<i32>,
    pub modified_by_request: String,
    pub name: Vec<String>,
    pub name__empty: bool,
    pub name__ic: Vec<String>,
    pub name__ie: Vec<String>,
    pub name__iew: Vec<String>,
    pub name__isw: Vec<String>,
    pub name__n: Vec<String>,
    pub name__nic: Vec<String>,
    pub name__nie: Vec<String>,
    pub name__niew: Vec<String>,
    pub name__nisw: Vec<String>,
    pub occupied: bool,
    pub offset: i64,
    pub ordering: String,
    pub phase: String,
    pub phase__n: String,
    pub power_panel_id: Vec<i64>,
    pub power_panel_id__n: Vec<i64>,
    pub q: String,
    pub rack_id: Vec<i64>,
    pub rack_id__n: Vec<i64>,
    pub region: Vec<i64>,
    pub region__n: Vec<i64>,
    pub region_id: Vec<i64>,
    pub region_id__n: Vec<i64>,
    pub site: Vec<String>,
    pub site__n: Vec<String>,
    pub site_group: Vec<i64>,
    pub site_group__n: Vec<i64>,
    pub site_group_id: Vec<i64>,
    pub site_group_id__n: Vec<i64>,
    pub site_id: Vec<i64>,
    pub site_id__n: Vec<i64>,
    pub status: Vec<String>,
    pub status__n: Vec<String>,
    pub supply: String,
    pub supply__n: String,
    pub tag: Vec<String>,
    pub tag__n: Vec<String>,
    pub tenant: Vec<String>,
    pub tenant__n: Vec<String>,
    pub tenant_group: Vec<i64>,
    pub tenant_group__n: Vec<i64>,
    pub tenant_group_id: Vec<i64>,
    pub tenant_group_id__n: Vec<i64>,
    pub tenant_id: Vec<i64>,
    pub tenant_id__n: Vec<i64>,
    pub typ: String,
    pub typ__n: String,
    pub updated_by_request: String,
    pub voltage: Vec<i32>,
    pub voltage__empty: bool,
    pub voltage__gt: Vec<i32>,
    pub voltage__gte: Vec<i32>,
    pub voltage__lt: Vec<i32>,
    pub voltage__lte: Vec<i32>,
    pub voltage__n: Vec<i32>,
}

pub struct DcimPowerFeedsBulkUpdateQuery {}

pub struct DcimPowerFeedsCreateQuery {}

pub struct DcimPowerFeedsBulkPartialUpdateQuery {}

pub struct DcimPowerFeedsBulkDestroyQuery {}

pub struct VirtualizationInterfacesRetrieveQuery {}

pub struct VirtualizationInterfacesUpdateQuery {}

pub struct VirtualizationInterfacesPartialUpdateQuery {}

pub struct VirtualizationInterfacesDestroyQuery {}

pub struct CircuitsCircuitTerminationsRetrieveQuery {}

pub struct CircuitsCircuitTerminationsUpdateQuery {}

pub struct CircuitsCircuitTerminationsPartialUpdateQuery {}

pub struct CircuitsCircuitTerminationsDestroyQuery {}

pub struct DcimModuleTypesRetrieveQuery {}

pub struct DcimModuleTypesUpdateQuery {}

pub struct DcimModuleTypesPartialUpdateQuery {}

pub struct DcimModuleTypesDestroyQuery {}

pub struct DcimDeviceBayTemplatesRetrieveQuery {}

pub struct DcimDeviceBayTemplatesUpdateQuery {}

pub struct DcimDeviceBayTemplatesPartialUpdateQuery {}

pub struct DcimDeviceBayTemplatesDestroyQuery {}

pub struct DcimDeviceBayTemplatesListQuery {
    pub created: Vec<String>,
    pub created__empty: Vec<String>,
    pub created__gt: Vec<String>,
    pub created__gte: Vec<String>,
    pub created__lt: Vec<String>,
    pub created__lte: Vec<String>,
    pub created__n: Vec<String>,
    pub created_by_request: String,
    pub devicetyp_id: Vec<i64>,
    pub devicetyp_id__n: Vec<i64>,
    pub id: Vec<i32>,
    pub id__empty: bool,
    pub id__gt: Vec<i32>,
    pub id__gte: Vec<i32>,
    pub id__lt: Vec<i32>,
    pub id__lte: Vec<i32>,
    pub id__n: Vec<i32>,
    pub last_updated: Vec<String>,
    pub last_updated__empty: Vec<String>,
    pub last_updated__gt: Vec<String>,
    pub last_updated__gte: Vec<String>,
    pub last_updated__lt: Vec<String>,
    pub last_updated__lte: Vec<String>,
    pub last_updated__n: Vec<String>,
    pub limit: i64,
    pub modified_by_request: String,
    pub name: Vec<String>,
    pub name__empty: bool,
    pub name__ic: Vec<String>,
    pub name__ie: Vec<String>,
    pub name__iew: Vec<String>,
    pub name__isw: Vec<String>,
    pub name__n: Vec<String>,
    pub name__nic: Vec<String>,
    pub name__nie: Vec<String>,
    pub name__niew: Vec<String>,
    pub name__nisw: Vec<String>,
    pub offset: i64,
    pub ordering: String,
    pub q: String,
    pub updated_by_request: String,
}

pub struct DcimDeviceBayTemplatesBulkUpdateQuery {}

pub struct DcimDeviceBayTemplatesCreateQuery {}

pub struct DcimDeviceBayTemplatesBulkPartialUpdateQuery {}

pub struct DcimDeviceBayTemplatesBulkDestroyQuery {}

pub struct DcimDeviceTypesBulkUpdateQuery {}

pub struct DcimDeviceTypesCreateQuery {}

pub struct DcimDeviceTypesBulkPartialUpdateQuery {}

pub struct DcimDeviceTypesBulkDestroyQuery {}

pub struct DcimModuleBayTemplatesRetrieveQuery {}

pub struct DcimModuleBayTemplatesUpdateQuery {}

pub struct DcimModuleBayTemplatesPartialUpdateQuery {}

pub struct DcimModuleBayTemplatesDestroyQuery {}

pub struct IpamVrfsListQuery {
    pub created: Vec<String>,
    pub created__empty: Vec<String>,
    pub created__gt: Vec<String>,
    pub created__gte: Vec<String>,
    pub created__lt: Vec<String>,
    pub created__lte: Vec<String>,
    pub created__n: Vec<String>,
    pub created_by_request: String,
    pub description: Vec<String>,
    pub description__empty: bool,
    pub description__ic: Vec<String>,
    pub description__ie: Vec<String>,
    pub description__iew: Vec<String>,
    pub description__isw: Vec<String>,
    pub description__n: Vec<String>,
    pub description__nic: Vec<String>,
    pub description__nie: Vec<String>,
    pub description__niew: Vec<String>,
    pub description__nisw: Vec<String>,
    pub enforce_unique: bool,
    pub export_target: Vec<String>,
    pub export_target__n: Vec<String>,
    pub export_target_id: Vec<i64>,
    pub export_target_id__n: Vec<i64>,
    pub id: Vec<i32>,
    pub id__empty: bool,
    pub id__gt: Vec<i32>,
    pub id__gte: Vec<i32>,
    pub id__lt: Vec<i32>,
    pub id__lte: Vec<i32>,
    pub id__n: Vec<i32>,
    pub import_target: Vec<String>,
    pub import_target__n: Vec<String>,
    pub import_target_id: Vec<i64>,
    pub import_target_id__n: Vec<i64>,
    pub last_updated: Vec<String>,
    pub last_updated__empty: Vec<String>,
    pub last_updated__gt: Vec<String>,
    pub last_updated__gte: Vec<String>,
    pub last_updated__lt: Vec<String>,
    pub last_updated__lte: Vec<String>,
    pub last_updated__n: Vec<String>,
    pub limit: i64,
    pub modified_by_request: String,
    pub name: Vec<String>,
    pub name__empty: bool,
    pub name__ic: Vec<String>,
    pub name__ie: Vec<String>,
    pub name__iew: Vec<String>,
    pub name__isw: Vec<String>,
    pub name__n: Vec<String>,
    pub name__nic: Vec<String>,
    pub name__nie: Vec<String>,
    pub name__niew: Vec<String>,
    pub name__nisw: Vec<String>,
    pub offset: i64,
    pub ordering: String,
    pub q: String,
    pub rd: Vec<String>,
    pub rd__empty: bool,
    pub rd__ic: Vec<String>,
    pub rd__ie: Vec<String>,
    pub rd__iew: Vec<String>,
    pub rd__isw: Vec<String>,
    pub rd__n: Vec<String>,
    pub rd__nic: Vec<String>,
    pub rd__nie: Vec<String>,
    pub rd__niew: Vec<String>,
    pub rd__nisw: Vec<String>,
    pub tag: Vec<String>,
    pub tag__n: Vec<String>,
    pub tenant: Vec<String>,
    pub tenant__n: Vec<String>,
    pub tenant_group: Vec<i64>,
    pub tenant_group__n: Vec<i64>,
    pub tenant_group_id: Vec<i64>,
    pub tenant_group_id__n: Vec<i64>,
    pub tenant_id: Vec<i64>,
    pub tenant_id__n: Vec<i64>,
    pub updated_by_request: String,
}

pub struct IpamVrfsBulkUpdateQuery {}

pub struct IpamVrfsCreateQuery {}

pub struct IpamVrfsBulkPartialUpdateQuery {}

pub struct IpamVrfsBulkDestroyQuery {}

pub struct DcimDeviceRolesRetrieveQuery {}

pub struct DcimDeviceRolesUpdateQuery {}

pub struct DcimDeviceRolesPartialUpdateQuery {}

pub struct DcimDeviceRolesDestroyQuery {}

pub struct IpamAsnsListQuery {
    pub asn: Vec<i32>,
    pub asn__empty: bool,
    pub asn__gt: Vec<i32>,
    pub asn__gte: Vec<i32>,
    pub asn__lt: Vec<i32>,
    pub asn__lte: Vec<i32>,
    pub asn__n: Vec<i32>,
    pub created: Vec<String>,
    pub created__empty: Vec<String>,
    pub created__gt: Vec<String>,
    pub created__gte: Vec<String>,
    pub created__lt: Vec<String>,
    pub created__lte: Vec<String>,
    pub created__n: Vec<String>,
    pub created_by_request: String,
    pub description: Vec<String>,
    pub description__empty: bool,
    pub description__ic: Vec<String>,
    pub description__ie: Vec<String>,
    pub description__iew: Vec<String>,
    pub description__isw: Vec<String>,
    pub description__n: Vec<String>,
    pub description__nic: Vec<String>,
    pub description__nie: Vec<String>,
    pub description__niew: Vec<String>,
    pub description__nisw: Vec<String>,
    pub id: Vec<i32>,
    pub id__empty: bool,
    pub id__gt: Vec<i32>,
    pub id__gte: Vec<i32>,
    pub id__lt: Vec<i32>,
    pub id__lte: Vec<i32>,
    pub id__n: Vec<i32>,
    pub last_updated: Vec<String>,
    pub last_updated__empty: Vec<String>,
    pub last_updated__gt: Vec<String>,
    pub last_updated__gte: Vec<String>,
    pub last_updated__lt: Vec<String>,
    pub last_updated__lte: Vec<String>,
    pub last_updated__n: Vec<String>,
    pub limit: i64,
    pub modified_by_request: String,
    pub offset: i64,
    pub ordering: String,
    pub q: String,
    pub rir: Vec<String>,
    pub rir__n: Vec<String>,
    pub rir_id: Vec<i64>,
    pub rir_id__n: Vec<i64>,
    pub site: Vec<String>,
    pub site__n: Vec<String>,
    pub site_id: Vec<i64>,
    pub site_id__n: Vec<i64>,
    pub tag: Vec<String>,
    pub tag__n: Vec<String>,
    pub tenant: Vec<String>,
    pub tenant__n: Vec<String>,
    pub tenant_group: Vec<i64>,
    pub tenant_group__n: Vec<i64>,
    pub tenant_group_id: Vec<i64>,
    pub tenant_group_id__n: Vec<i64>,
    pub tenant_id: Vec<i64>,
    pub tenant_id__n: Vec<i64>,
    pub updated_by_request: String,
}

pub struct IpamAsnsBulkUpdateQuery {}

pub struct IpamAsnsCreateQuery {}

pub struct IpamAsnsBulkPartialUpdateQuery {}

pub struct IpamAsnsBulkDestroyQuery {}

pub struct DcimDevicesRetrieveQuery {}

pub struct DcimDevicesUpdateQuery {}

pub struct DcimDevicesPartialUpdateQuery {}

pub struct DcimDevicesDestroyQuery {}

pub struct IpamRolesRetrieveQuery {}

pub struct IpamRolesUpdateQuery {}

pub struct IpamRolesPartialUpdateQuery {}

pub struct IpamRolesDestroyQuery {}

pub struct WirelessWirelessLansRetrieveQuery {}

pub struct WirelessWirelessLansUpdateQuery {}

pub struct WirelessWirelessLansPartialUpdateQuery {}

pub struct WirelessWirelessLansDestroyQuery {}

pub struct WirelessWirelessLinksRetrieveQuery {}

pub struct WirelessWirelessLinksUpdateQuery {}

pub struct WirelessWirelessLinksPartialUpdateQuery {}

pub struct WirelessWirelessLinksDestroyQuery {}

pub struct DcimRegionsRetrieveQuery {}

pub struct DcimRegionsUpdateQuery {}

pub struct DcimRegionsPartialUpdateQuery {}

pub struct DcimRegionsDestroyQuery {}

pub struct CircuitsProvidersListQuery {
    pub asn_id: Vec<i64>,
    pub asn_id__n: Vec<i64>,
    pub contact: Vec<i64>,
    pub contact__n: Vec<i64>,
    pub contact_group: Vec<i64>,
    pub contact_group__n: Vec<i64>,
    pub contact_role: Vec<i64>,
    pub contact_role__n: Vec<i64>,
    pub created: Vec<String>,
    pub created__empty: Vec<String>,
    pub created__gt: Vec<String>,
    pub created__gte: Vec<String>,
    pub created__lt: Vec<String>,
    pub created__lte: Vec<String>,
    pub created__n: Vec<String>,
    pub created_by_request: String,
    pub id: Vec<i32>,
    pub id__empty: bool,
    pub id__gt: Vec<i32>,
    pub id__gte: Vec<i32>,
    pub id__lt: Vec<i32>,
    pub id__lte: Vec<i32>,
    pub id__n: Vec<i32>,
    pub last_updated: Vec<String>,
    pub last_updated__empty: Vec<String>,
    pub last_updated__gt: Vec<String>,
    pub last_updated__gte: Vec<String>,
    pub last_updated__lt: Vec<String>,
    pub last_updated__lte: Vec<String>,
    pub last_updated__n: Vec<String>,
    pub limit: i64,
    pub modified_by_request: String,
    pub name: Vec<String>,
    pub name__empty: bool,
    pub name__ic: Vec<String>,
    pub name__ie: Vec<String>,
    pub name__iew: Vec<String>,
    pub name__isw: Vec<String>,
    pub name__n: Vec<String>,
    pub name__nic: Vec<String>,
    pub name__nie: Vec<String>,
    pub name__niew: Vec<String>,
    pub name__nisw: Vec<String>,
    pub offset: i64,
    pub ordering: String,
    pub q: String,
    pub region: Vec<i64>,
    pub region__n: Vec<i64>,
    pub region_id: Vec<i64>,
    pub region_id__n: Vec<i64>,
    pub site: Vec<String>,
    pub site__n: Vec<String>,
    pub site_group: Vec<i64>,
    pub site_group__n: Vec<i64>,
    pub site_group_id: Vec<i64>,
    pub site_group_id__n: Vec<i64>,
    pub site_id: Vec<i64>,
    pub site_id__n: Vec<i64>,
    pub slug: Vec<String>,
    pub slug__empty: bool,
    pub slug__ic: Vec<String>,
    pub slug__ie: Vec<String>,
    pub slug__iew: Vec<String>,
    pub slug__isw: Vec<String>,
    pub slug__n: Vec<String>,
    pub slug__nic: Vec<String>,
    pub slug__nie: Vec<String>,
    pub slug__niew: Vec<String>,
    pub slug__nisw: Vec<String>,
    pub tag: Vec<String>,
    pub tag__n: Vec<String>,
    pub updated_by_request: String,
}

pub struct CircuitsProvidersBulkUpdateQuery {}

pub struct CircuitsProvidersCreateQuery {}

pub struct CircuitsProvidersBulkPartialUpdateQuery {}

pub struct CircuitsProvidersBulkDestroyQuery {}

pub struct DcimPowerFeedsTraceRetrieveQuery {}

pub struct IpamPrefixesRetrieveQuery {}

pub struct IpamPrefixesUpdateQuery {}

pub struct IpamPrefixesPartialUpdateQuery {}

pub struct IpamPrefixesDestroyQuery {}

pub struct DcimConsoleServerPortTemplatesListQuery {
    pub created: Vec<String>,
    pub created__empty: Vec<String>,
    pub created__gt: Vec<String>,
    pub created__gte: Vec<String>,
    pub created__lt: Vec<String>,
    pub created__lte: Vec<String>,
    pub created__n: Vec<String>,
    pub created_by_request: String,
    pub devicetyp_id: Vec<i64>,
    pub devicetyp_id__n: Vec<i64>,
    pub id: Vec<i32>,
    pub id__empty: bool,
    pub id__gt: Vec<i32>,
    pub id__gte: Vec<i32>,
    pub id__lt: Vec<i32>,
    pub id__lte: Vec<i32>,
    pub id__n: Vec<i32>,
    pub last_updated: Vec<String>,
    pub last_updated__empty: Vec<String>,
    pub last_updated__gt: Vec<String>,
    pub last_updated__gte: Vec<String>,
    pub last_updated__lt: Vec<String>,
    pub last_updated__lte: Vec<String>,
    pub last_updated__n: Vec<String>,
    pub limit: i64,
    pub modified_by_request: String,
    pub moduletyp_id: Vec<i64>,
    pub moduletyp_id__n: Vec<i64>,
    pub name: Vec<String>,
    pub name__empty: bool,
    pub name__ic: Vec<String>,
    pub name__ie: Vec<String>,
    pub name__iew: Vec<String>,
    pub name__isw: Vec<String>,
    pub name__n: Vec<String>,
    pub name__nic: Vec<String>,
    pub name__nie: Vec<String>,
    pub name__niew: Vec<String>,
    pub name__nisw: Vec<String>,
    pub offset: i64,
    pub ordering: String,
    pub q: String,
    pub typ: String,
    pub typ__n: String,
    pub updated_by_request: String,
}

pub struct DcimConsoleServerPortTemplatesBulkUpdateQuery {}

pub struct DcimConsoleServerPortTemplatesCreateQuery {}

pub struct DcimConsoleServerPortTemplatesBulkPartialUpdateQuery {}

pub struct DcimConsoleServerPortTemplatesBulkDestroyQuery {}

pub struct ExtrasCustomFieldChoiceSetsChoicesRetrieveQuery {}

pub struct IpamVlansRetrieveQuery {}

pub struct IpamVlansUpdateQuery {}

pub struct IpamVlansPartialUpdateQuery {}

pub struct IpamVlansDestroyQuery {}

pub struct DcimConsolePortTemplatesListQuery {
    pub created: Vec<String>,
    pub created__empty: Vec<String>,
    pub created__gt: Vec<String>,
    pub created__gte: Vec<String>,
    pub created__lt: Vec<String>,
    pub created__lte: Vec<String>,
    pub created__n: Vec<String>,
    pub created_by_request: String,
    pub devicetyp_id: Vec<i64>,
    pub devicetyp_id__n: Vec<i64>,
    pub id: Vec<i32>,
    pub id__empty: bool,
    pub id__gt: Vec<i32>,
    pub id__gte: Vec<i32>,
    pub id__lt: Vec<i32>,
    pub id__lte: Vec<i32>,
    pub id__n: Vec<i32>,
    pub last_updated: Vec<String>,
    pub last_updated__empty: Vec<String>,
    pub last_updated__gt: Vec<String>,
    pub last_updated__gte: Vec<String>,
    pub last_updated__lt: Vec<String>,
    pub last_updated__lte: Vec<String>,
    pub last_updated__n: Vec<String>,
    pub limit: i64,
    pub modified_by_request: String,
    pub moduletyp_id: Vec<i64>,
    pub moduletyp_id__n: Vec<i64>,
    pub name: Vec<String>,
    pub name__empty: bool,
    pub name__ic: Vec<String>,
    pub name__ie: Vec<String>,
    pub name__iew: Vec<String>,
    pub name__isw: Vec<String>,
    pub name__n: Vec<String>,
    pub name__nic: Vec<String>,
    pub name__nie: Vec<String>,
    pub name__niew: Vec<String>,
    pub name__nisw: Vec<String>,
    pub offset: i64,
    pub ordering: String,
    pub q: String,
    pub typ: String,
    pub typ__n: String,
    pub updated_by_request: String,
}

pub struct DcimConsolePortTemplatesBulkUpdateQuery {}

pub struct DcimConsolePortTemplatesCreateQuery {}

pub struct DcimConsolePortTemplatesBulkPartialUpdateQuery {}

pub struct DcimConsolePortTemplatesBulkDestroyQuery {}

pub struct DcimDeviceBaysRetrieveQuery {}

pub struct DcimDeviceBaysUpdateQuery {}

pub struct DcimDeviceBaysPartialUpdateQuery {}

pub struct DcimDeviceBaysDestroyQuery {}

pub struct IpamIpAddressesRetrieveQuery {}

pub struct IpamIpAddressesUpdateQuery {}

pub struct IpamIpAddressesPartialUpdateQuery {}

pub struct IpamIpAddressesDestroyQuery {}

pub struct DcimInventoryItemRolesListQuery {
    pub color: Vec<String>,
    pub color__empty: bool,
    pub color__ic: Vec<String>,
    pub color__ie: Vec<String>,
    pub color__iew: Vec<String>,
    pub color__isw: Vec<String>,
    pub color__n: Vec<String>,
    pub color__nic: Vec<String>,
    pub color__nie: Vec<String>,
    pub color__niew: Vec<String>,
    pub color__nisw: Vec<String>,
    pub created: Vec<String>,
    pub created__empty: Vec<String>,
    pub created__gt: Vec<String>,
    pub created__gte: Vec<String>,
    pub created__lt: Vec<String>,
    pub created__lte: Vec<String>,
    pub created__n: Vec<String>,
    pub created_by_request: String,
    pub id: Vec<i32>,
    pub id__empty: bool,
    pub id__gt: Vec<i32>,
    pub id__gte: Vec<i32>,
    pub id__lt: Vec<i32>,
    pub id__lte: Vec<i32>,
    pub id__n: Vec<i32>,
    pub last_updated: Vec<String>,
    pub last_updated__empty: Vec<String>,
    pub last_updated__gt: Vec<String>,
    pub last_updated__gte: Vec<String>,
    pub last_updated__lt: Vec<String>,
    pub last_updated__lte: Vec<String>,
    pub last_updated__n: Vec<String>,
    pub limit: i64,
    pub modified_by_request: String,
    pub name: Vec<String>,
    pub name__empty: bool,
    pub name__ic: Vec<String>,
    pub name__ie: Vec<String>,
    pub name__iew: Vec<String>,
    pub name__isw: Vec<String>,
    pub name__n: Vec<String>,
    pub name__nic: Vec<String>,
    pub name__nie: Vec<String>,
    pub name__niew: Vec<String>,
    pub name__nisw: Vec<String>,
    pub offset: i64,
    pub ordering: String,
    pub q: String,
    pub slug: Vec<String>,
    pub slug__empty: bool,
    pub slug__ic: Vec<String>,
    pub slug__ie: Vec<String>,
    pub slug__iew: Vec<String>,
    pub slug__isw: Vec<String>,
    pub slug__n: Vec<String>,
    pub slug__nic: Vec<String>,
    pub slug__nie: Vec<String>,
    pub slug__niew: Vec<String>,
    pub slug__nisw: Vec<String>,
    pub tag: Vec<String>,
    pub tag__n: Vec<String>,
    pub updated_by_request: String,
}

pub struct DcimInventoryItemRolesBulkUpdateQuery {}

pub struct DcimInventoryItemRolesCreateQuery {}

pub struct DcimInventoryItemRolesBulkPartialUpdateQuery {}

pub struct DcimInventoryItemRolesBulkDestroyQuery {}

pub struct DcimRacksElevationRetrieveQuery {}

pub struct DcimInterfacesRetrieveQuery {}

pub struct DcimInterfacesUpdateQuery {}

pub struct DcimInterfacesPartialUpdateQuery {}

pub struct DcimInterfacesDestroyQuery {}

pub struct ExtrasCustomFieldChoiceSetsListQuery {
    pub base_choices: String,
    pub base_choices__n: String,
    pub choice: Vec<String>,
    pub description: Vec<String>,
    pub description__empty: bool,
    pub description__ic: Vec<String>,
    pub description__ie: Vec<String>,
    pub description__iew: Vec<String>,
    pub description__isw: Vec<String>,
    pub description__n: Vec<String>,
    pub description__nic: Vec<String>,
    pub description__nie: Vec<String>,
    pub description__niew: Vec<String>,
    pub description__nisw: Vec<String>,
    pub id: Vec<i32>,
    pub id__empty: bool,
    pub id__gt: Vec<i32>,
    pub id__gte: Vec<i32>,
    pub id__lt: Vec<i32>,
    pub id__lte: Vec<i32>,
    pub id__n: Vec<i32>,
    pub limit: i64,
    pub name: Vec<String>,
    pub name__empty: bool,
    pub name__ic: Vec<String>,
    pub name__ie: Vec<String>,
    pub name__iew: Vec<String>,
    pub name__isw: Vec<String>,
    pub name__n: Vec<String>,
    pub name__nic: Vec<String>,
    pub name__nie: Vec<String>,
    pub name__niew: Vec<String>,
    pub name__nisw: Vec<String>,
    pub offset: i64,
    pub order_alphabetically: bool,
    pub ordering: String,
    pub q: String,
}

pub struct ExtrasCustomFieldChoiceSetsBulkUpdateQuery {}

pub struct ExtrasCustomFieldChoiceSetsCreateQuery {}

pub struct ExtrasCustomFieldChoiceSetsBulkPartialUpdateQuery {}

pub struct ExtrasCustomFieldChoiceSetsBulkDestroyQuery {}

pub struct VirtualizationClusterTypesRetrieveQuery {}

pub struct VirtualizationClusterTypesUpdateQuery {}

pub struct VirtualizationClusterTypesPartialUpdateQuery {}

pub struct VirtualizationClusterTypesDestroyQuery {}

pub struct VirtualizationInterfacesListQuery {
    pub bridge_id: Vec<i64>,
    pub bridge_id__n: Vec<i64>,
    pub cluster: Vec<String>,
    pub cluster__n: Vec<String>,
    pub cluster_id: Vec<i64>,
    pub cluster_id__n: Vec<i64>,
    pub created: Vec<String>,
    pub created__empty: Vec<String>,
    pub created__gt: Vec<String>,
    pub created__gte: Vec<String>,
    pub created__lt: Vec<String>,
    pub created__lte: Vec<String>,
    pub created__n: Vec<String>,
    pub created_by_request: String,
    pub description: Vec<String>,
    pub description__empty: bool,
    pub description__ic: Vec<String>,
    pub description__ie: Vec<String>,
    pub description__iew: Vec<String>,
    pub description__isw: Vec<String>,
    pub description__n: Vec<String>,
    pub description__nic: Vec<String>,
    pub description__nie: Vec<String>,
    pub description__niew: Vec<String>,
    pub description__nisw: Vec<String>,
    pub enabled: bool,
    pub id: Vec<i32>,
    pub id__empty: bool,
    pub id__gt: Vec<i32>,
    pub id__gte: Vec<i32>,
    pub id__lt: Vec<i32>,
    pub id__lte: Vec<i32>,
    pub id__n: Vec<i32>,
    pub l2vpn: Vec<i64>,
    pub l2vpn__n: Vec<i64>,
    pub l2vpn_id: Vec<i64>,
    pub l2vpn_id__n: Vec<i64>,
    pub last_updated: Vec<String>,
    pub last_updated__empty: Vec<String>,
    pub last_updated__gt: Vec<String>,
    pub last_updated__gte: Vec<String>,
    pub last_updated__lt: Vec<String>,
    pub last_updated__lte: Vec<String>,
    pub last_updated__n: Vec<String>,
    pub limit: i64,
    pub mac_address: Vec<String>,
    pub mac_address__ic: Vec<String>,
    pub mac_address__ie: Vec<String>,
    pub mac_address__iew: Vec<String>,
    pub mac_address__isw: Vec<String>,
    pub mac_address__n: Vec<String>,
    pub mac_address__nic: Vec<String>,
    pub mac_address__nie: Vec<String>,
    pub mac_address__niew: Vec<String>,
    pub mac_address__nisw: Vec<String>,
    pub modified_by_request: String,
    pub mtu: Vec<i32>,
    pub mtu__empty: bool,
    pub mtu__gt: Vec<i32>,
    pub mtu__gte: Vec<i32>,
    pub mtu__lt: Vec<i32>,
    pub mtu__lte: Vec<i32>,
    pub mtu__n: Vec<i32>,
    pub name: Vec<String>,
    pub name__empty: bool,
    pub name__ic: Vec<String>,
    pub name__ie: Vec<String>,
    pub name__iew: Vec<String>,
    pub name__isw: Vec<String>,
    pub name__n: Vec<String>,
    pub name__nic: Vec<String>,
    pub name__nie: Vec<String>,
    pub name__niew: Vec<String>,
    pub name__nisw: Vec<String>,
    pub offset: i64,
    pub ordering: String,
    pub parent_id: Vec<i64>,
    pub parent_id__n: Vec<i64>,
    pub q: String,
    pub tag: Vec<String>,
    pub tag__n: Vec<String>,
    pub updated_by_request: String,
    pub virtual_machine: Vec<String>,
    pub virtual_machine__n: Vec<String>,
    pub virtual_machine_id: Vec<i64>,
    pub virtual_machine_id__n: Vec<i64>,
    pub vlan: String,
    pub vlan_id: String,
    pub vrf: Vec<String>,
    pub vrf__n: Vec<String>,
    pub vrf_id: Vec<i64>,
    pub vrf_id__n: Vec<i64>,
}

pub struct VirtualizationInterfacesBulkUpdateQuery {}

pub struct VirtualizationInterfacesCreateQuery {}

pub struct VirtualizationInterfacesBulkPartialUpdateQuery {}

pub struct VirtualizationInterfacesBulkDestroyQuery {}

pub struct DcimVirtualDeviceContextsRetrieveQuery {}

pub struct DcimVirtualDeviceContextsUpdateQuery {}

pub struct DcimVirtualDeviceContextsPartialUpdateQuery {}

pub struct DcimVirtualDeviceContextsDestroyQuery {}

pub struct DcimConsoleServerPortsListQuery {
    pub cable_end: String,
    pub cable_end__n: String,
    pub cabled: bool,
    pub connected: bool,
    pub created: Vec<String>,
    pub created__empty: Vec<String>,
    pub created__gt: Vec<String>,
    pub created__gte: Vec<String>,
    pub created__lt: Vec<String>,
    pub created__lte: Vec<String>,
    pub created__n: Vec<String>,
    pub created_by_request: String,
    pub description: Vec<String>,
    pub description__empty: bool,
    pub description__ic: Vec<String>,
    pub description__ie: Vec<String>,
    pub description__iew: Vec<String>,
    pub description__isw: Vec<String>,
    pub description__n: Vec<String>,
    pub description__nic: Vec<String>,
    pub description__nie: Vec<String>,
    pub description__niew: Vec<String>,
    pub description__nisw: Vec<String>,
    pub device: Vec<String>,
    pub device__n: Vec<String>,
    pub device_id: Vec<i64>,
    pub device_id__n: Vec<i64>,
    pub device_role: Vec<String>,
    pub device_role__n: Vec<String>,
    pub device_role_id: Vec<i64>,
    pub device_role_id__n: Vec<i64>,
    pub device_typ: Vec<String>,
    pub device_typ__n: Vec<String>,
    pub device_typ_id: Vec<i64>,
    pub device_typ_id__n: Vec<i64>,
    pub id: Vec<i32>,
    pub id__empty: bool,
    pub id__gt: Vec<i32>,
    pub id__gte: Vec<i32>,
    pub id__lt: Vec<i32>,
    pub id__lte: Vec<i32>,
    pub id__n: Vec<i32>,
    pub label: Vec<String>,
    pub label__empty: bool,
    pub label__ic: Vec<String>,
    pub label__ie: Vec<String>,
    pub label__iew: Vec<String>,
    pub label__isw: Vec<String>,
    pub label__n: Vec<String>,
    pub label__nic: Vec<String>,
    pub label__nie: Vec<String>,
    pub label__niew: Vec<String>,
    pub label__nisw: Vec<String>,
    pub last_updated: Vec<String>,
    pub last_updated__empty: Vec<String>,
    pub last_updated__gt: Vec<String>,
    pub last_updated__gte: Vec<String>,
    pub last_updated__lt: Vec<String>,
    pub last_updated__lte: Vec<String>,
    pub last_updated__n: Vec<String>,
    pub limit: i64,
    pub location: Vec<String>,
    pub location__n: Vec<String>,
    pub location_id: Vec<i64>,
    pub location_id__n: Vec<i64>,
    pub modified_by_request: String,
    pub module_id: Vec<i64>,
    pub module_id__n: Vec<i64>,
    pub name: Vec<String>,
    pub name__empty: bool,
    pub name__ic: Vec<String>,
    pub name__ie: Vec<String>,
    pub name__iew: Vec<String>,
    pub name__isw: Vec<String>,
    pub name__n: Vec<String>,
    pub name__nic: Vec<String>,
    pub name__nie: Vec<String>,
    pub name__niew: Vec<String>,
    pub name__nisw: Vec<String>,
    pub occupied: bool,
    pub offset: i64,
    pub ordering: String,
    pub q: String,
    pub rack: Vec<String>,
    pub rack__n: Vec<String>,
    pub rack_id: Vec<i64>,
    pub rack_id__n: Vec<i64>,
    pub region: Vec<i64>,
    pub region__n: Vec<i64>,
    pub region_id: Vec<i64>,
    pub region_id__n: Vec<i64>,
    pub role: Vec<String>,
    pub role__n: Vec<String>,
    pub role_id: Vec<i64>,
    pub role_id__n: Vec<i64>,
    pub site: Vec<String>,
    pub site__n: Vec<String>,
    pub site_group: Vec<i64>,
    pub site_group__n: Vec<i64>,
    pub site_group_id: Vec<i64>,
    pub site_group_id__n: Vec<i64>,
    pub site_id: Vec<i64>,
    pub site_id__n: Vec<i64>,
    pub tag: Vec<String>,
    pub tag__n: Vec<String>,
    pub typ: Vec<String>,
    pub typ__n: Vec<String>,
    pub updated_by_request: String,
    pub virtual_chassis: Vec<String>,
    pub virtual_chassis__n: Vec<String>,
    pub virtual_chassis_id: Vec<i64>,
    pub virtual_chassis_id__n: Vec<i64>,
}

pub struct DcimConsoleServerPortsBulkUpdateQuery {}

pub struct DcimConsoleServerPortsCreateQuery {}

pub struct DcimConsoleServerPortsBulkPartialUpdateQuery {}

pub struct DcimConsoleServerPortsBulkDestroyQuery {}

pub struct DcimModuleTypesBulkUpdateQuery {}

pub struct DcimModuleTypesCreateQuery {}

pub struct DcimModuleTypesBulkPartialUpdateQuery {}

pub struct DcimModuleTypesBulkDestroyQuery {}

pub struct IpamIpRangesAvailableIpsListQuery {}

pub struct IpamIpRangesAvailableIpsCreateQuery {}

pub struct DcimInterfacesBulkUpdateQuery {}

pub struct DcimInterfacesCreateQuery {}

pub struct DcimInterfacesBulkPartialUpdateQuery {}

pub struct DcimInterfacesBulkDestroyQuery {}

pub struct IpamAsnsRetrieveQuery {}

pub struct IpamAsnsUpdateQuery {}

pub struct IpamAsnsPartialUpdateQuery {}

pub struct IpamAsnsDestroyQuery {}

pub struct IpamAsnRangesListQuery {
    pub created: Vec<String>,
    pub created__empty: Vec<String>,
    pub created__gt: Vec<String>,
    pub created__gte: Vec<String>,
    pub created__lt: Vec<String>,
    pub created__lte: Vec<String>,
    pub created__n: Vec<String>,
    pub created_by_request: String,
    pub description: Vec<String>,
    pub description__empty: bool,
    pub description__ic: Vec<String>,
    pub description__ie: Vec<String>,
    pub description__iew: Vec<String>,
    pub description__isw: Vec<String>,
    pub description__n: Vec<String>,
    pub description__nic: Vec<String>,
    pub description__nie: Vec<String>,
    pub description__niew: Vec<String>,
    pub description__nisw: Vec<String>,
    pub end: Vec<i32>,
    pub end__empty: bool,
    pub end__gt: Vec<i32>,
    pub end__gte: Vec<i32>,
    pub end__lt: Vec<i32>,
    pub end__lte: Vec<i32>,
    pub end__n: Vec<i32>,
    pub id: Vec<i32>,
    pub id__empty: bool,
    pub id__gt: Vec<i32>,
    pub id__gte: Vec<i32>,
    pub id__lt: Vec<i32>,
    pub id__lte: Vec<i32>,
    pub id__n: Vec<i32>,
    pub last_updated: Vec<String>,
    pub last_updated__empty: Vec<String>,
    pub last_updated__gt: Vec<String>,
    pub last_updated__gte: Vec<String>,
    pub last_updated__lt: Vec<String>,
    pub last_updated__lte: Vec<String>,
    pub last_updated__n: Vec<String>,
    pub limit: i64,
    pub modified_by_request: String,
    pub name: Vec<String>,
    pub name__empty: bool,
    pub name__ic: Vec<String>,
    pub name__ie: Vec<String>,
    pub name__iew: Vec<String>,
    pub name__isw: Vec<String>,
    pub name__n: Vec<String>,
    pub name__nic: Vec<String>,
    pub name__nie: Vec<String>,
    pub name__niew: Vec<String>,
    pub name__nisw: Vec<String>,
    pub offset: i64,
    pub ordering: String,
    pub q: String,
    pub rir: Vec<String>,
    pub rir__n: Vec<String>,
    pub rir_id: Vec<i64>,
    pub rir_id__n: Vec<i64>,
    pub start: Vec<i32>,
    pub start__empty: bool,
    pub start__gt: Vec<i32>,
    pub start__gte: Vec<i32>,
    pub start__lt: Vec<i32>,
    pub start__lte: Vec<i32>,
    pub start__n: Vec<i32>,
    pub tag: Vec<String>,
    pub tag__n: Vec<String>,
    pub tenant: Vec<String>,
    pub tenant__n: Vec<String>,
    pub tenant_group: Vec<i64>,
    pub tenant_group__n: Vec<i64>,
    pub tenant_group_id: Vec<i64>,
    pub tenant_group_id__n: Vec<i64>,
    pub tenant_id: Vec<i64>,
    pub tenant_id__n: Vec<i64>,
    pub updated_by_request: String,
}

pub struct IpamAsnRangesBulkUpdateQuery {}

pub struct IpamAsnRangesCreateQuery {}

pub struct IpamAsnRangesBulkPartialUpdateQuery {}

pub struct IpamAsnRangesBulkDestroyQuery {}

pub struct IpamAsnRangesRetrieveQuery {}

pub struct IpamAsnRangesUpdateQuery {}

pub struct IpamAsnRangesPartialUpdateQuery {}

pub struct IpamAsnRangesDestroyQuery {}

pub struct CircuitsCircuitTerminationsListQuery {
    pub cable_end: String,
    pub cable_end__n: String,
    pub cabled: bool,
    pub circuit_id: Vec<i64>,
    pub circuit_id__n: Vec<i64>,
    pub created: Vec<String>,
    pub created__empty: Vec<String>,
    pub created__gt: Vec<String>,
    pub created__gte: Vec<String>,
    pub created__lt: Vec<String>,
    pub created__lte: Vec<String>,
    pub created__n: Vec<String>,
    pub created_by_request: String,
    pub description: Vec<String>,
    pub description__empty: bool,
    pub description__ic: Vec<String>,
    pub description__ie: Vec<String>,
    pub description__iew: Vec<String>,
    pub description__isw: Vec<String>,
    pub description__n: Vec<String>,
    pub description__nic: Vec<String>,
    pub description__nie: Vec<String>,
    pub description__niew: Vec<String>,
    pub description__nisw: Vec<String>,
    pub id: Vec<i32>,
    pub id__empty: bool,
    pub id__gt: Vec<i32>,
    pub id__gte: Vec<i32>,
    pub id__lt: Vec<i32>,
    pub id__lte: Vec<i32>,
    pub id__n: Vec<i32>,
    pub last_updated: Vec<String>,
    pub last_updated__empty: Vec<String>,
    pub last_updated__gt: Vec<String>,
    pub last_updated__gte: Vec<String>,
    pub last_updated__lt: Vec<String>,
    pub last_updated__lte: Vec<String>,
    pub last_updated__n: Vec<String>,
    pub limit: i64,
    pub modified_by_request: String,
    pub occupied: bool,
    pub offset: i64,
    pub ordering: String,
    pub port_speed: Vec<i32>,
    pub port_speed__empty: bool,
    pub port_speed__gt: Vec<i32>,
    pub port_speed__gte: Vec<i32>,
    pub port_speed__lt: Vec<i32>,
    pub port_speed__lte: Vec<i32>,
    pub port_speed__n: Vec<i32>,
    pub provider_network_id: Vec<i64>,
    pub provider_network_id__n: Vec<i64>,
    pub q: String,
    pub site: Vec<String>,
    pub site__n: Vec<String>,
    pub site_id: Vec<i64>,
    pub site_id__n: Vec<i64>,
    pub tag: Vec<String>,
    pub tag__n: Vec<String>,
    pub term_side: String,
    pub term_side__n: String,
    pub updated_by_request: String,
    pub upstream_speed: Vec<i32>,
    pub upstream_speed__empty: bool,
    pub upstream_speed__gt: Vec<i32>,
    pub upstream_speed__gte: Vec<i32>,
    pub upstream_speed__lt: Vec<i32>,
    pub upstream_speed__lte: Vec<i32>,
    pub upstream_speed__n: Vec<i32>,
    pub xconnect_id: Vec<String>,
    pub xconnect_id__empty: bool,
    pub xconnect_id__ic: Vec<String>,
    pub xconnect_id__ie: Vec<String>,
    pub xconnect_id__iew: Vec<String>,
    pub xconnect_id__isw: Vec<String>,
    pub xconnect_id__n: Vec<String>,
    pub xconnect_id__nic: Vec<String>,
    pub xconnect_id__nie: Vec<String>,
    pub xconnect_id__niew: Vec<String>,
    pub xconnect_id__nisw: Vec<String>,
}

pub struct CircuitsCircuitTerminationsBulkUpdateQuery {}

pub struct CircuitsCircuitTerminationsCreateQuery {}

pub struct CircuitsCircuitTerminationsBulkPartialUpdateQuery {}

pub struct CircuitsCircuitTerminationsBulkDestroyQuery {}

pub struct IpamVlanGroupsRetrieveQuery {}

pub struct IpamVlanGroupsUpdateQuery {}

pub struct IpamVlanGroupsPartialUpdateQuery {}

pub struct IpamVlanGroupsDestroyQuery {}

pub struct ExtrasObjectChangesListQuery {
    pub action: String,
    pub action__n: String,
    pub changed_object_id: Vec<i32>,
    pub changed_object_id__empty: bool,
    pub changed_object_id__gt: Vec<i32>,
    pub changed_object_id__gte: Vec<i32>,
    pub changed_object_id__lt: Vec<i32>,
    pub changed_object_id__lte: Vec<i32>,
    pub changed_object_id__n: Vec<i32>,
    pub changed_object_typ: String,
    pub changed_object_typ__n: String,
    pub changed_object_typ_id: Vec<i64>,
    pub changed_object_typ_id__n: Vec<i64>,
    pub id: Vec<i32>,
    pub id__empty: bool,
    pub id__gt: Vec<i32>,
    pub id__gte: Vec<i32>,
    pub id__lt: Vec<i32>,
    pub id__lte: Vec<i32>,
    pub id__n: Vec<i32>,
    pub limit: i64,
    pub object_repr: Vec<String>,
    pub object_repr__empty: bool,
    pub object_repr__ic: Vec<String>,
    pub object_repr__ie: Vec<String>,
    pub object_repr__iew: Vec<String>,
    pub object_repr__isw: Vec<String>,
    pub object_repr__n: Vec<String>,
    pub object_repr__nic: Vec<String>,
    pub object_repr__nie: Vec<String>,
    pub object_repr__niew: Vec<String>,
    pub object_repr__nisw: Vec<String>,
    pub offset: i64,
    pub ordering: String,
    pub q: String,
    pub request_id: String,
    pub time_after: String,
    pub time_before: String,
    pub user: Vec<String>,
    pub user__n: Vec<String>,
    pub user_id: Vec<i64>,
    pub user_id__n: Vec<i64>,
    pub user_name: Vec<String>,
    pub user_name__empty: bool,
    pub user_name__ic: Vec<String>,
    pub user_name__ie: Vec<String>,
    pub user_name__iew: Vec<String>,
    pub user_name__isw: Vec<String>,
    pub user_name__n: Vec<String>,
    pub user_name__nic: Vec<String>,
    pub user_name__nie: Vec<String>,
    pub user_name__niew: Vec<String>,
    pub user_name__nisw: Vec<String>,
}

pub struct DcimCablesRetrieveQuery {}

pub struct DcimCablesUpdateQuery {}

pub struct DcimCablesPartialUpdateQuery {}

pub struct DcimCablesDestroyQuery {}

pub struct ExtrasContentTypesRetrieveQuery {}

pub struct ExtrasObjectChangesRetrieveQuery {}

pub struct IpamFhrpGroupsRetrieveQuery {}

pub struct IpamFhrpGroupsUpdateQuery {}

pub struct IpamFhrpGroupsPartialUpdateQuery {}

pub struct IpamFhrpGroupsDestroyQuery {}

pub struct VirtualizationClustersRetrieveQuery {}

pub struct VirtualizationClustersUpdateQuery {}

pub struct VirtualizationClustersPartialUpdateQuery {}

pub struct VirtualizationClustersDestroyQuery {}

pub struct DcimPowerOutletsTraceRetrieveQuery {}

pub struct IpamServicesRetrieveQuery {}

pub struct IpamServicesUpdateQuery {}

pub struct IpamServicesPartialUpdateQuery {}

pub struct IpamServicesDestroyQuery {}

pub struct IpamAggregatesRetrieveQuery {}

pub struct IpamAggregatesUpdateQuery {}

pub struct IpamAggregatesPartialUpdateQuery {}

pub struct IpamAggregatesDestroyQuery {}

pub struct VirtualizationClusterTypesListQuery {
    pub created: Vec<String>,
    pub created__empty: Vec<String>,
    pub created__gt: Vec<String>,
    pub created__gte: Vec<String>,
    pub created__lt: Vec<String>,
    pub created__lte: Vec<String>,
    pub created__n: Vec<String>,
    pub created_by_request: String,
    pub description: Vec<String>,
    pub description__empty: bool,
    pub description__ic: Vec<String>,
    pub description__ie: Vec<String>,
    pub description__iew: Vec<String>,
    pub description__isw: Vec<String>,
    pub description__n: Vec<String>,
    pub description__nic: Vec<String>,
    pub description__nie: Vec<String>,
    pub description__niew: Vec<String>,
    pub description__nisw: Vec<String>,
    pub id: Vec<i32>,
    pub id__empty: bool,
    pub id__gt: Vec<i32>,
    pub id__gte: Vec<i32>,
    pub id__lt: Vec<i32>,
    pub id__lte: Vec<i32>,
    pub id__n: Vec<i32>,
    pub last_updated: Vec<String>,
    pub last_updated__empty: Vec<String>,
    pub last_updated__gt: Vec<String>,
    pub last_updated__gte: Vec<String>,
    pub last_updated__lt: Vec<String>,
    pub last_updated__lte: Vec<String>,
    pub last_updated__n: Vec<String>,
    pub limit: i64,
    pub modified_by_request: String,
    pub name: Vec<String>,
    pub name__empty: bool,
    pub name__ic: Vec<String>,
    pub name__ie: Vec<String>,
    pub name__iew: Vec<String>,
    pub name__isw: Vec<String>,
    pub name__n: Vec<String>,
    pub name__nic: Vec<String>,
    pub name__nie: Vec<String>,
    pub name__niew: Vec<String>,
    pub name__nisw: Vec<String>,
    pub offset: i64,
    pub ordering: String,
    pub q: String,
    pub slug: Vec<String>,
    pub slug__empty: bool,
    pub slug__ic: Vec<String>,
    pub slug__ie: Vec<String>,
    pub slug__iew: Vec<String>,
    pub slug__isw: Vec<String>,
    pub slug__n: Vec<String>,
    pub slug__nic: Vec<String>,
    pub slug__nie: Vec<String>,
    pub slug__niew: Vec<String>,
    pub slug__nisw: Vec<String>,
    pub tag: Vec<String>,
    pub tag__n: Vec<String>,
    pub updated_by_request: String,
}

pub struct VirtualizationClusterTypesBulkUpdateQuery {}

pub struct VirtualizationClusterTypesCreateQuery {}

pub struct VirtualizationClusterTypesBulkPartialUpdateQuery {}

pub struct VirtualizationClusterTypesBulkDestroyQuery {}

pub struct CoreDataFilesRetrieveQuery {}

pub struct DcimInventoryItemsListQuery {
    pub asset_tag: Vec<String>,
    pub asset_tag__empty: bool,
    pub asset_tag__ic: Vec<String>,
    pub asset_tag__ie: Vec<String>,
    pub asset_tag__iew: Vec<String>,
    pub asset_tag__isw: Vec<String>,
    pub asset_tag__n: Vec<String>,
    pub asset_tag__nic: Vec<String>,
    pub asset_tag__nie: Vec<String>,
    pub asset_tag__niew: Vec<String>,
    pub asset_tag__nisw: Vec<String>,
    pub component_id: Vec<i32>,
    pub component_id__empty: Vec<i32>,
    pub component_id__gt: Vec<i32>,
    pub component_id__gte: Vec<i32>,
    pub component_id__lt: Vec<i32>,
    pub component_id__lte: Vec<i32>,
    pub component_id__n: Vec<i32>,
    pub component_typ: String,
    pub component_typ__n: String,
    pub created: Vec<String>,
    pub created__empty: Vec<String>,
    pub created__gt: Vec<String>,
    pub created__gte: Vec<String>,
    pub created__lt: Vec<String>,
    pub created__lte: Vec<String>,
    pub created__n: Vec<String>,
    pub created_by_request: String,
    pub device: Vec<String>,
    pub device__n: Vec<String>,
    pub device_id: Vec<i64>,
    pub device_id__n: Vec<i64>,
    pub device_role: Vec<String>,
    pub device_role__n: Vec<String>,
    pub device_role_id: Vec<i64>,
    pub device_role_id__n: Vec<i64>,
    pub device_typ: Vec<String>,
    pub device_typ__n: Vec<String>,
    pub device_typ_id: Vec<i64>,
    pub device_typ_id__n: Vec<i64>,
    pub discovered: bool,
    pub id: Vec<i32>,
    pub id__empty: bool,
    pub id__gt: Vec<i32>,
    pub id__gte: Vec<i32>,
    pub id__lt: Vec<i32>,
    pub id__lte: Vec<i32>,
    pub id__n: Vec<i32>,
    pub label: Vec<String>,
    pub label__empty: bool,
    pub label__ic: Vec<String>,
    pub label__ie: Vec<String>,
    pub label__iew: Vec<String>,
    pub label__isw: Vec<String>,
    pub label__n: Vec<String>,
    pub label__nic: Vec<String>,
    pub label__nie: Vec<String>,
    pub label__niew: Vec<String>,
    pub label__nisw: Vec<String>,
    pub last_updated: Vec<String>,
    pub last_updated__empty: Vec<String>,
    pub last_updated__gt: Vec<String>,
    pub last_updated__gte: Vec<String>,
    pub last_updated__lt: Vec<String>,
    pub last_updated__lte: Vec<String>,
    pub last_updated__n: Vec<String>,
    pub limit: i64,
    pub location: Vec<String>,
    pub location__n: Vec<String>,
    pub location_id: Vec<i64>,
    pub location_id__n: Vec<i64>,
    pub manufacturer: Vec<String>,
    pub manufacturer__n: Vec<String>,
    pub manufacturer_id: Vec<i64>,
    pub manufacturer_id__n: Vec<i64>,
    pub modified_by_request: String,
    pub name: Vec<String>,
    pub name__empty: bool,
    pub name__ic: Vec<String>,
    pub name__ie: Vec<String>,
    pub name__iew: Vec<String>,
    pub name__isw: Vec<String>,
    pub name__n: Vec<String>,
    pub name__nic: Vec<String>,
    pub name__nie: Vec<String>,
    pub name__niew: Vec<String>,
    pub name__nisw: Vec<String>,
    pub offset: i64,
    pub ordering: String,
    pub parent_id: Vec<i64>,
    pub parent_id__n: Vec<i64>,
    pub part_id: Vec<String>,
    pub part_id__empty: bool,
    pub part_id__ic: Vec<String>,
    pub part_id__ie: Vec<String>,
    pub part_id__iew: Vec<String>,
    pub part_id__isw: Vec<String>,
    pub part_id__n: Vec<String>,
    pub part_id__nic: Vec<String>,
    pub part_id__nie: Vec<String>,
    pub part_id__niew: Vec<String>,
    pub part_id__nisw: Vec<String>,
    pub q: String,
    pub rack: Vec<String>,
    pub rack__n: Vec<String>,
    pub rack_id: Vec<i64>,
    pub rack_id__n: Vec<i64>,
    pub region: Vec<i64>,
    pub region__n: Vec<i64>,
    pub region_id: Vec<i64>,
    pub region_id__n: Vec<i64>,
    pub role: Vec<String>,
    pub role__n: Vec<String>,
    pub role_id: Vec<i64>,
    pub role_id__n: Vec<i64>,
    pub serial: Vec<String>,
    pub serial__empty: bool,
    pub serial__ic: Vec<String>,
    pub serial__ie: Vec<String>,
    pub serial__iew: Vec<String>,
    pub serial__isw: Vec<String>,
    pub serial__n: Vec<String>,
    pub serial__nic: Vec<String>,
    pub serial__nie: Vec<String>,
    pub serial__niew: Vec<String>,
    pub serial__nisw: Vec<String>,
    pub site: Vec<String>,
    pub site__n: Vec<String>,
    pub site_group: Vec<i64>,
    pub site_group__n: Vec<i64>,
    pub site_group_id: Vec<i64>,
    pub site_group_id__n: Vec<i64>,
    pub site_id: Vec<i64>,
    pub site_id__n: Vec<i64>,
    pub tag: Vec<String>,
    pub tag__n: Vec<String>,
    pub updated_by_request: String,
    pub virtual_chassis: Vec<String>,
    pub virtual_chassis__n: Vec<String>,
    pub virtual_chassis_id: Vec<i64>,
    pub virtual_chassis_id__n: Vec<i64>,
}

pub struct DcimInventoryItemsBulkUpdateQuery {}

pub struct DcimInventoryItemsCreateQuery {}

pub struct DcimInventoryItemsBulkPartialUpdateQuery {}

pub struct DcimInventoryItemsBulkDestroyQuery {}

pub struct IpamVrfsRetrieveQuery {}

pub struct IpamVrfsUpdateQuery {}

pub struct IpamVrfsPartialUpdateQuery {}

pub struct IpamVrfsDestroyQuery {}

pub struct DcimInterfaceTemplatesListQuery {
    pub bridge_id: Vec<i64>,
    pub bridge_id__n: Vec<i64>,
    pub created: Vec<String>,
    pub created__empty: Vec<String>,
    pub created__gt: Vec<String>,
    pub created__gte: Vec<String>,
    pub created__lt: Vec<String>,
    pub created__lte: Vec<String>,
    pub created__n: Vec<String>,
    pub created_by_request: String,
    pub devicetyp_id: Vec<i64>,
    pub devicetyp_id__n: Vec<i64>,
    pub enabled: bool,
    pub id: Vec<i32>,
    pub id__empty: bool,
    pub id__gt: Vec<i32>,
    pub id__gte: Vec<i32>,
    pub id__lt: Vec<i32>,
    pub id__lte: Vec<i32>,
    pub id__n: Vec<i32>,
    pub last_updated: Vec<String>,
    pub last_updated__empty: Vec<String>,
    pub last_updated__gt: Vec<String>,
    pub last_updated__gte: Vec<String>,
    pub last_updated__lt: Vec<String>,
    pub last_updated__lte: Vec<String>,
    pub last_updated__n: Vec<String>,
    pub limit: i64,
    pub mgmt_only: bool,
    pub modified_by_request: String,
    pub moduletyp_id: Vec<i64>,
    pub moduletyp_id__n: Vec<i64>,
    pub name: Vec<String>,
    pub name__empty: bool,
    pub name__ic: Vec<String>,
    pub name__ie: Vec<String>,
    pub name__iew: Vec<String>,
    pub name__isw: Vec<String>,
    pub name__n: Vec<String>,
    pub name__nic: Vec<String>,
    pub name__nie: Vec<String>,
    pub name__niew: Vec<String>,
    pub name__nisw: Vec<String>,
    pub offset: i64,
    pub ordering: String,
    pub poe_mode: Vec<String>,
    pub poe_mode__n: Vec<String>,
    pub poe_typ: Vec<String>,
    pub poe_typ__n: Vec<String>,
    pub q: String,
    pub rf_role: Vec<String>,
    pub rf_role__n: Vec<String>,
    pub typ: Vec<String>,
    pub typ__n: Vec<String>,
    pub updated_by_request: String,
}

pub struct DcimInterfaceTemplatesBulkUpdateQuery {}

pub struct DcimInterfaceTemplatesCreateQuery {}

pub struct DcimInterfaceTemplatesBulkPartialUpdateQuery {}

pub struct DcimInterfaceTemplatesBulkDestroyQuery {}

pub struct IpamRirsListQuery {
    pub created: Vec<String>,
    pub created__empty: Vec<String>,
    pub created__gt: Vec<String>,
    pub created__gte: Vec<String>,
    pub created__lt: Vec<String>,
    pub created__lte: Vec<String>,
    pub created__n: Vec<String>,
    pub created_by_request: String,
    pub description: Vec<String>,
    pub description__empty: bool,
    pub description__ic: Vec<String>,
    pub description__ie: Vec<String>,
    pub description__iew: Vec<String>,
    pub description__isw: Vec<String>,
    pub description__n: Vec<String>,
    pub description__nic: Vec<String>,
    pub description__nie: Vec<String>,
    pub description__niew: Vec<String>,
    pub description__nisw: Vec<String>,
    pub id: Vec<i32>,
    pub id__empty: bool,
    pub id__gt: Vec<i32>,
    pub id__gte: Vec<i32>,
    pub id__lt: Vec<i32>,
    pub id__lte: Vec<i32>,
    pub id__n: Vec<i32>,
    pub is_private: bool,
    pub last_updated: Vec<String>,
    pub last_updated__empty: Vec<String>,
    pub last_updated__gt: Vec<String>,
    pub last_updated__gte: Vec<String>,
    pub last_updated__lt: Vec<String>,
    pub last_updated__lte: Vec<String>,
    pub last_updated__n: Vec<String>,
    pub limit: i64,
    pub modified_by_request: String,
    pub name: Vec<String>,
    pub name__empty: bool,
    pub name__ic: Vec<String>,
    pub name__ie: Vec<String>,
    pub name__iew: Vec<String>,
    pub name__isw: Vec<String>,
    pub name__n: Vec<String>,
    pub name__nic: Vec<String>,
    pub name__nie: Vec<String>,
    pub name__niew: Vec<String>,
    pub name__nisw: Vec<String>,
    pub offset: i64,
    pub ordering: String,
    pub q: String,
    pub slug: Vec<String>,
    pub slug__empty: bool,
    pub slug__ic: Vec<String>,
    pub slug__ie: Vec<String>,
    pub slug__iew: Vec<String>,
    pub slug__isw: Vec<String>,
    pub slug__n: Vec<String>,
    pub slug__nic: Vec<String>,
    pub slug__nie: Vec<String>,
    pub slug__niew: Vec<String>,
    pub slug__nisw: Vec<String>,
    pub tag: Vec<String>,
    pub tag__n: Vec<String>,
    pub updated_by_request: String,
}

pub struct IpamRirsBulkUpdateQuery {}

pub struct IpamRirsCreateQuery {}

pub struct IpamRirsBulkPartialUpdateQuery {}

pub struct IpamRirsBulkDestroyQuery {}

pub struct DcimPowerOutletsListQuery {
    pub cable_end: String,
    pub cable_end__n: String,
    pub cabled: bool,
    pub connected: bool,
    pub created: Vec<String>,
    pub created__empty: Vec<String>,
    pub created__gt: Vec<String>,
    pub created__gte: Vec<String>,
    pub created__lt: Vec<String>,
    pub created__lte: Vec<String>,
    pub created__n: Vec<String>,
    pub created_by_request: String,
    pub description: Vec<String>,
    pub description__empty: bool,
    pub description__ic: Vec<String>,
    pub description__ie: Vec<String>,
    pub description__iew: Vec<String>,
    pub description__isw: Vec<String>,
    pub description__n: Vec<String>,
    pub description__nic: Vec<String>,
    pub description__nie: Vec<String>,
    pub description__niew: Vec<String>,
    pub description__nisw: Vec<String>,
    pub device: Vec<String>,
    pub device__n: Vec<String>,
    pub device_id: Vec<i64>,
    pub device_id__n: Vec<i64>,
    pub device_role: Vec<String>,
    pub device_role__n: Vec<String>,
    pub device_role_id: Vec<i64>,
    pub device_role_id__n: Vec<i64>,
    pub device_typ: Vec<String>,
    pub device_typ__n: Vec<String>,
    pub device_typ_id: Vec<i64>,
    pub device_typ_id__n: Vec<i64>,
    pub feed_leg: Vec<String>,
    pub feed_leg__n: Vec<String>,
    pub id: Vec<i32>,
    pub id__empty: bool,
    pub id__gt: Vec<i32>,
    pub id__gte: Vec<i32>,
    pub id__lt: Vec<i32>,
    pub id__lte: Vec<i32>,
    pub id__n: Vec<i32>,
    pub label: Vec<String>,
    pub label__empty: bool,
    pub label__ic: Vec<String>,
    pub label__ie: Vec<String>,
    pub label__iew: Vec<String>,
    pub label__isw: Vec<String>,
    pub label__n: Vec<String>,
    pub label__nic: Vec<String>,
    pub label__nie: Vec<String>,
    pub label__niew: Vec<String>,
    pub label__nisw: Vec<String>,
    pub last_updated: Vec<String>,
    pub last_updated__empty: Vec<String>,
    pub last_updated__gt: Vec<String>,
    pub last_updated__gte: Vec<String>,
    pub last_updated__lt: Vec<String>,
    pub last_updated__lte: Vec<String>,
    pub last_updated__n: Vec<String>,
    pub limit: i64,
    pub location: Vec<String>,
    pub location__n: Vec<String>,
    pub location_id: Vec<i64>,
    pub location_id__n: Vec<i64>,
    pub modified_by_request: String,
    pub module_id: Vec<i64>,
    pub module_id__n: Vec<i64>,
    pub name: Vec<String>,
    pub name__empty: bool,
    pub name__ic: Vec<String>,
    pub name__ie: Vec<String>,
    pub name__iew: Vec<String>,
    pub name__isw: Vec<String>,
    pub name__n: Vec<String>,
    pub name__nic: Vec<String>,
    pub name__nie: Vec<String>,
    pub name__niew: Vec<String>,
    pub name__nisw: Vec<String>,
    pub occupied: bool,
    pub offset: i64,
    pub ordering: String,
    pub q: String,
    pub rack: Vec<String>,
    pub rack__n: Vec<String>,
    pub rack_id: Vec<i64>,
    pub rack_id__n: Vec<i64>,
    pub region: Vec<i64>,
    pub region__n: Vec<i64>,
    pub region_id: Vec<i64>,
    pub region_id__n: Vec<i64>,
    pub role: Vec<String>,
    pub role__n: Vec<String>,
    pub role_id: Vec<i64>,
    pub role_id__n: Vec<i64>,
    pub site: Vec<String>,
    pub site__n: Vec<String>,
    pub site_group: Vec<i64>,
    pub site_group__n: Vec<i64>,
    pub site_group_id: Vec<i64>,
    pub site_group_id__n: Vec<i64>,
    pub site_id: Vec<i64>,
    pub site_id__n: Vec<i64>,
    pub tag: Vec<String>,
    pub tag__n: Vec<String>,
    pub typ: Vec<String>,
    pub typ__n: Vec<String>,
    pub updated_by_request: String,
    pub virtual_chassis: Vec<String>,
    pub virtual_chassis__n: Vec<String>,
    pub virtual_chassis_id: Vec<i64>,
    pub virtual_chassis_id__n: Vec<i64>,
}

pub struct DcimPowerOutletsBulkUpdateQuery {}

pub struct DcimPowerOutletsCreateQuery {}

pub struct DcimPowerOutletsBulkPartialUpdateQuery {}

pub struct DcimPowerOutletsBulkDestroyQuery {}

pub struct DcimConsoleServerPortTemplatesRetrieveQuery {}

pub struct DcimConsoleServerPortTemplatesUpdateQuery {}

pub struct DcimConsoleServerPortTemplatesPartialUpdateQuery {}

pub struct DcimConsoleServerPortTemplatesDestroyQuery {}

pub struct CoreDataSourcesSyncCreateQuery {}

pub struct IpamRouteTargetsListQuery {
    pub created: Vec<String>,
    pub created__empty: Vec<String>,
    pub created__gt: Vec<String>,
    pub created__gte: Vec<String>,
    pub created__lt: Vec<String>,
    pub created__lte: Vec<String>,
    pub created__n: Vec<String>,
    pub created_by_request: String,
    pub description: Vec<String>,
    pub description__empty: bool,
    pub description__ic: Vec<String>,
    pub description__ie: Vec<String>,
    pub description__iew: Vec<String>,
    pub description__isw: Vec<String>,
    pub description__n: Vec<String>,
    pub description__nic: Vec<String>,
    pub description__nie: Vec<String>,
    pub description__niew: Vec<String>,
    pub description__nisw: Vec<String>,
    pub exporting_vrf: Vec<String>,
    pub exporting_vrf__n: Vec<String>,
    pub exporting_vrf_id: Vec<i64>,
    pub exporting_vrf_id__n: Vec<i64>,
    pub id: Vec<i32>,
    pub id__empty: bool,
    pub id__gt: Vec<i32>,
    pub id__gte: Vec<i32>,
    pub id__lt: Vec<i32>,
    pub id__lte: Vec<i32>,
    pub id__n: Vec<i32>,
    pub importing_vrf: Vec<String>,
    pub importing_vrf__n: Vec<String>,
    pub importing_vrf_id: Vec<i64>,
    pub importing_vrf_id__n: Vec<i64>,
    pub last_updated: Vec<String>,
    pub last_updated__empty: Vec<String>,
    pub last_updated__gt: Vec<String>,
    pub last_updated__gte: Vec<String>,
    pub last_updated__lt: Vec<String>,
    pub last_updated__lte: Vec<String>,
    pub last_updated__n: Vec<String>,
    pub limit: i64,
    pub modified_by_request: String,
    pub name: Vec<String>,
    pub name__empty: bool,
    pub name__ic: Vec<String>,
    pub name__ie: Vec<String>,
    pub name__iew: Vec<String>,
    pub name__isw: Vec<String>,
    pub name__n: Vec<String>,
    pub name__nic: Vec<String>,
    pub name__nie: Vec<String>,
    pub name__niew: Vec<String>,
    pub name__nisw: Vec<String>,
    pub offset: i64,
    pub ordering: String,
    pub q: String,
    pub tag: Vec<String>,
    pub tag__n: Vec<String>,
    pub tenant: Vec<String>,
    pub tenant__n: Vec<String>,
    pub tenant_group: Vec<i64>,
    pub tenant_group__n: Vec<i64>,
    pub tenant_group_id: Vec<i64>,
    pub tenant_group_id__n: Vec<i64>,
    pub tenant_id: Vec<i64>,
    pub tenant_id__n: Vec<i64>,
    pub updated_by_request: String,
}

pub struct IpamRouteTargetsBulkUpdateQuery {}

pub struct IpamRouteTargetsCreateQuery {}

pub struct IpamRouteTargetsBulkPartialUpdateQuery {}

pub struct IpamRouteTargetsBulkDestroyQuery {}

pub struct DcimCableTerminationsListQuery {
    pub cable: i64,
    pub cable__n: i64,
    pub cable_end: String,
    pub cable_end__n: String,
    pub id: Vec<i32>,
    pub id__empty: bool,
    pub id__gt: Vec<i32>,
    pub id__gte: Vec<i32>,
    pub id__lt: Vec<i32>,
    pub id__lte: Vec<i32>,
    pub id__n: Vec<i32>,
    pub limit: i64,
    pub offset: i64,
    pub ordering: String,
    pub termination_id: Vec<i32>,
    pub termination_id__empty: bool,
    pub termination_id__gt: Vec<i32>,
    pub termination_id__gte: Vec<i32>,
    pub termination_id__lt: Vec<i32>,
    pub termination_id__lte: Vec<i32>,
    pub termination_id__n: Vec<i32>,
    pub termination_typ: String,
    pub termination_typ__n: String,
}

pub struct DcimCableTerminationsBulkUpdateQuery {}

pub struct DcimCableTerminationsCreateQuery {}

pub struct DcimCableTerminationsBulkPartialUpdateQuery {}

pub struct DcimCableTerminationsBulkDestroyQuery {}

pub struct WirelessWirelessLanGroupsListQuery {
    pub created: Vec<String>,
    pub created__empty: Vec<String>,
    pub created__gt: Vec<String>,
    pub created__gte: Vec<String>,
    pub created__lt: Vec<String>,
    pub created__lte: Vec<String>,
    pub created__n: Vec<String>,
    pub created_by_request: String,
    pub description: Vec<String>,
    pub description__empty: bool,
    pub description__ic: Vec<String>,
    pub description__ie: Vec<String>,
    pub description__iew: Vec<String>,
    pub description__isw: Vec<String>,
    pub description__n: Vec<String>,
    pub description__nic: Vec<String>,
    pub description__nie: Vec<String>,
    pub description__niew: Vec<String>,
    pub description__nisw: Vec<String>,
    pub id: Vec<i32>,
    pub id__empty: bool,
    pub id__gt: Vec<i32>,
    pub id__gte: Vec<i32>,
    pub id__lt: Vec<i32>,
    pub id__lte: Vec<i32>,
    pub id__n: Vec<i32>,
    pub last_updated: Vec<String>,
    pub last_updated__empty: Vec<String>,
    pub last_updated__gt: Vec<String>,
    pub last_updated__gte: Vec<String>,
    pub last_updated__lt: Vec<String>,
    pub last_updated__lte: Vec<String>,
    pub last_updated__n: Vec<String>,
    pub limit: i64,
    pub modified_by_request: String,
    pub name: Vec<String>,
    pub name__empty: bool,
    pub name__ic: Vec<String>,
    pub name__ie: Vec<String>,
    pub name__iew: Vec<String>,
    pub name__isw: Vec<String>,
    pub name__n: Vec<String>,
    pub name__nic: Vec<String>,
    pub name__nie: Vec<String>,
    pub name__niew: Vec<String>,
    pub name__nisw: Vec<String>,
    pub offset: i64,
    pub ordering: String,
    pub parent: Vec<String>,
    pub parent__n: Vec<String>,
    pub parent_id: Vec<i64>,
    pub parent_id__n: Vec<i64>,
    pub q: String,
    pub slug: Vec<String>,
    pub slug__empty: bool,
    pub slug__ic: Vec<String>,
    pub slug__ie: Vec<String>,
    pub slug__iew: Vec<String>,
    pub slug__isw: Vec<String>,
    pub slug__n: Vec<String>,
    pub slug__nic: Vec<String>,
    pub slug__nie: Vec<String>,
    pub slug__niew: Vec<String>,
    pub slug__nisw: Vec<String>,
    pub tag: Vec<String>,
    pub tag__n: Vec<String>,
    pub updated_by_request: String,
}

pub struct WirelessWirelessLanGroupsBulkUpdateQuery {}

pub struct WirelessWirelessLanGroupsCreateQuery {}

pub struct WirelessWirelessLanGroupsBulkPartialUpdateQuery {}

pub struct WirelessWirelessLanGroupsBulkDestroyQuery {}

pub struct ExtrasWebhooksRetrieveQuery {}

pub struct ExtrasWebhooksUpdateQuery {}

pub struct ExtrasWebhooksPartialUpdateQuery {}

pub struct ExtrasWebhooksDestroyQuery {}

pub struct IpamPrefixesAvailableIpsListQuery {}

pub struct IpamPrefixesAvailableIpsCreateQuery {}

pub struct DcimConsolePortsListQuery {
    pub cable_end: String,
    pub cable_end__n: String,
    pub cabled: bool,
    pub connected: bool,
    pub created: Vec<String>,
    pub created__empty: Vec<String>,
    pub created__gt: Vec<String>,
    pub created__gte: Vec<String>,
    pub created__lt: Vec<String>,
    pub created__lte: Vec<String>,
    pub created__n: Vec<String>,
    pub created_by_request: String,
    pub description: Vec<String>,
    pub description__empty: bool,
    pub description__ic: Vec<String>,
    pub description__ie: Vec<String>,
    pub description__iew: Vec<String>,
    pub description__isw: Vec<String>,
    pub description__n: Vec<String>,
    pub description__nic: Vec<String>,
    pub description__nie: Vec<String>,
    pub description__niew: Vec<String>,
    pub description__nisw: Vec<String>,
    pub device: Vec<String>,
    pub device__n: Vec<String>,
    pub device_id: Vec<i64>,
    pub device_id__n: Vec<i64>,
    pub device_role: Vec<String>,
    pub device_role__n: Vec<String>,
    pub device_role_id: Vec<i64>,
    pub device_role_id__n: Vec<i64>,
    pub device_typ: Vec<String>,
    pub device_typ__n: Vec<String>,
    pub device_typ_id: Vec<i64>,
    pub device_typ_id__n: Vec<i64>,
    pub id: Vec<i32>,
    pub id__empty: bool,
    pub id__gt: Vec<i32>,
    pub id__gte: Vec<i32>,
    pub id__lt: Vec<i32>,
    pub id__lte: Vec<i32>,
    pub id__n: Vec<i32>,
    pub label: Vec<String>,
    pub label__empty: bool,
    pub label__ic: Vec<String>,
    pub label__ie: Vec<String>,
    pub label__iew: Vec<String>,
    pub label__isw: Vec<String>,
    pub label__n: Vec<String>,
    pub label__nic: Vec<String>,
    pub label__nie: Vec<String>,
    pub label__niew: Vec<String>,
    pub label__nisw: Vec<String>,
    pub last_updated: Vec<String>,
    pub last_updated__empty: Vec<String>,
    pub last_updated__gt: Vec<String>,
    pub last_updated__gte: Vec<String>,
    pub last_updated__lt: Vec<String>,
    pub last_updated__lte: Vec<String>,
    pub last_updated__n: Vec<String>,
    pub limit: i64,
    pub location: Vec<String>,
    pub location__n: Vec<String>,
    pub location_id: Vec<i64>,
    pub location_id__n: Vec<i64>,
    pub modified_by_request: String,
    pub module_id: Vec<i64>,
    pub module_id__n: Vec<i64>,
    pub name: Vec<String>,
    pub name__empty: bool,
    pub name__ic: Vec<String>,
    pub name__ie: Vec<String>,
    pub name__iew: Vec<String>,
    pub name__isw: Vec<String>,
    pub name__n: Vec<String>,
    pub name__nic: Vec<String>,
    pub name__nie: Vec<String>,
    pub name__niew: Vec<String>,
    pub name__nisw: Vec<String>,
    pub occupied: bool,
    pub offset: i64,
    pub ordering: String,
    pub q: String,
    pub rack: Vec<String>,
    pub rack__n: Vec<String>,
    pub rack_id: Vec<i64>,
    pub rack_id__n: Vec<i64>,
    pub region: Vec<i64>,
    pub region__n: Vec<i64>,
    pub region_id: Vec<i64>,
    pub region_id__n: Vec<i64>,
    pub role: Vec<String>,
    pub role__n: Vec<String>,
    pub role_id: Vec<i64>,
    pub role_id__n: Vec<i64>,
    pub site: Vec<String>,
    pub site__n: Vec<String>,
    pub site_group: Vec<i64>,
    pub site_group__n: Vec<i64>,
    pub site_group_id: Vec<i64>,
    pub site_group_id__n: Vec<i64>,
    pub site_id: Vec<i64>,
    pub site_id__n: Vec<i64>,
    pub tag: Vec<String>,
    pub tag__n: Vec<String>,
    pub typ: Vec<String>,
    pub typ__n: Vec<String>,
    pub updated_by_request: String,
    pub virtual_chassis: Vec<String>,
    pub virtual_chassis__n: Vec<String>,
    pub virtual_chassis_id: Vec<i64>,
    pub virtual_chassis_id__n: Vec<i64>,
}

pub struct DcimConsolePortsBulkUpdateQuery {}

pub struct DcimConsolePortsCreateQuery {}

pub struct DcimConsolePortsBulkPartialUpdateQuery {}

pub struct DcimConsolePortsBulkDestroyQuery {}

pub struct IpamRolesListQuery {
    pub created: Vec<String>,
    pub created__empty: Vec<String>,
    pub created__gt: Vec<String>,
    pub created__gte: Vec<String>,
    pub created__lt: Vec<String>,
    pub created__lte: Vec<String>,
    pub created__n: Vec<String>,
    pub created_by_request: String,
    pub description: Vec<String>,
    pub description__empty: bool,
    pub description__ic: Vec<String>,
    pub description__ie: Vec<String>,
    pub description__iew: Vec<String>,
    pub description__isw: Vec<String>,
    pub description__n: Vec<String>,
    pub description__nic: Vec<String>,
    pub description__nie: Vec<String>,
    pub description__niew: Vec<String>,
    pub description__nisw: Vec<String>,
    pub id: Vec<i32>,
    pub id__empty: bool,
    pub id__gt: Vec<i32>,
    pub id__gte: Vec<i32>,
    pub id__lt: Vec<i32>,
    pub id__lte: Vec<i32>,
    pub id__n: Vec<i32>,
    pub last_updated: Vec<String>,
    pub last_updated__empty: Vec<String>,
    pub last_updated__gt: Vec<String>,
    pub last_updated__gte: Vec<String>,
    pub last_updated__lt: Vec<String>,
    pub last_updated__lte: Vec<String>,
    pub last_updated__n: Vec<String>,
    pub limit: i64,
    pub modified_by_request: String,
    pub name: Vec<String>,
    pub name__empty: bool,
    pub name__ic: Vec<String>,
    pub name__ie: Vec<String>,
    pub name__iew: Vec<String>,
    pub name__isw: Vec<String>,
    pub name__n: Vec<String>,
    pub name__nic: Vec<String>,
    pub name__nie: Vec<String>,
    pub name__niew: Vec<String>,
    pub name__nisw: Vec<String>,
    pub offset: i64,
    pub ordering: String,
    pub q: String,
    pub slug: Vec<String>,
    pub slug__empty: bool,
    pub slug__ic: Vec<String>,
    pub slug__ie: Vec<String>,
    pub slug__iew: Vec<String>,
    pub slug__isw: Vec<String>,
    pub slug__n: Vec<String>,
    pub slug__nic: Vec<String>,
    pub slug__nie: Vec<String>,
    pub slug__niew: Vec<String>,
    pub slug__nisw: Vec<String>,
    pub tag: Vec<String>,
    pub tag__n: Vec<String>,
    pub updated_by_request: String,
}

pub struct IpamRolesBulkUpdateQuery {}

pub struct IpamRolesCreateQuery {}

pub struct IpamRolesBulkPartialUpdateQuery {}

pub struct IpamRolesBulkDestroyQuery {}

pub struct DcimRearPortTemplatesRetrieveQuery {}

pub struct DcimRearPortTemplatesUpdateQuery {}

pub struct DcimRearPortTemplatesPartialUpdateQuery {}

pub struct DcimRearPortTemplatesDestroyQuery {}

pub struct ExtrasSavedFiltersListQuery {
    pub content_typ_id: Vec<i32>,
    pub content_typ_id__empty: Vec<i32>,
    pub content_typ_id__gt: Vec<i32>,
    pub content_typ_id__gte: Vec<i32>,
    pub content_typ_id__lt: Vec<i32>,
    pub content_typ_id__lte: Vec<i32>,
    pub content_typ_id__n: Vec<i32>,
    pub content_typs: String,
    pub content_typs__ic: String,
    pub content_typs__ie: String,
    pub content_typs__iew: String,
    pub content_typs__isw: String,
    pub content_typs__n: String,
    pub content_typs__nic: String,
    pub content_typs__nie: String,
    pub content_typs__niew: String,
    pub content_typs__nisw: String,
    pub description: Vec<String>,
    pub description__empty: bool,
    pub description__ic: Vec<String>,
    pub description__ie: Vec<String>,
    pub description__iew: Vec<String>,
    pub description__isw: Vec<String>,
    pub description__n: Vec<String>,
    pub description__nic: Vec<String>,
    pub description__nie: Vec<String>,
    pub description__niew: Vec<String>,
    pub description__nisw: Vec<String>,
    pub enabled: bool,
    pub id: Vec<i32>,
    pub id__empty: bool,
    pub id__gt: Vec<i32>,
    pub id__gte: Vec<i32>,
    pub id__lt: Vec<i32>,
    pub id__lte: Vec<i32>,
    pub id__n: Vec<i32>,
    pub limit: i64,
    pub name: Vec<String>,
    pub name__empty: bool,
    pub name__ic: Vec<String>,
    pub name__ie: Vec<String>,
    pub name__iew: Vec<String>,
    pub name__isw: Vec<String>,
    pub name__n: Vec<String>,
    pub name__nic: Vec<String>,
    pub name__nie: Vec<String>,
    pub name__niew: Vec<String>,
    pub name__nisw: Vec<String>,
    pub offset: i64,
    pub ordering: String,
    pub q: String,
    pub shared: bool,
    pub slug: Vec<String>,
    pub slug__empty: bool,
    pub slug__ic: Vec<String>,
    pub slug__ie: Vec<String>,
    pub slug__iew: Vec<String>,
    pub slug__isw: Vec<String>,
    pub slug__n: Vec<String>,
    pub slug__nic: Vec<String>,
    pub slug__nie: Vec<String>,
    pub slug__niew: Vec<String>,
    pub slug__nisw: Vec<String>,
    pub usable: bool,
    pub user: Vec<String>,
    pub user__n: Vec<String>,
    pub user_id: Vec<i64>,
    pub user_id__n: Vec<i64>,
    pub weight: Vec<i32>,
    pub weight__empty: bool,
    pub weight__gt: Vec<i32>,
    pub weight__gte: Vec<i32>,
    pub weight__lt: Vec<i32>,
    pub weight__lte: Vec<i32>,
    pub weight__n: Vec<i32>,
}

pub struct ExtrasSavedFiltersBulkUpdateQuery {}

pub struct ExtrasSavedFiltersCreateQuery {}

pub struct ExtrasSavedFiltersBulkPartialUpdateQuery {}

pub struct ExtrasSavedFiltersBulkDestroyQuery {}

pub struct TenancyContactGroupsRetrieveQuery {}

pub struct TenancyContactGroupsUpdateQuery {}

pub struct TenancyContactGroupsPartialUpdateQuery {}

pub struct TenancyContactGroupsDestroyQuery {}

pub struct DcimSiteGroupsRetrieveQuery {}

pub struct DcimSiteGroupsUpdateQuery {}

pub struct DcimSiteGroupsPartialUpdateQuery {}

pub struct DcimSiteGroupsDestroyQuery {}

pub struct DcimVirtualChassisRetrieveQuery {}

pub struct DcimVirtualChassisUpdateQuery {}

pub struct DcimVirtualChassisPartialUpdateQuery {}

pub struct DcimVirtualChassisDestroyQuery {}

pub struct DcimPowerPortsTraceRetrieveQuery {}

pub struct IpamIpAddressesBulkUpdateQuery {}

pub struct IpamIpAddressesCreateQuery {}

pub struct IpamIpAddressesBulkPartialUpdateQuery {}

pub struct IpamIpAddressesBulkDestroyQuery {}

pub struct IpamAsnRangesAvailableAsnsListQuery {}

pub struct IpamAsnRangesAvailableAsnsCreateQuery {}

pub struct ExtrasBookmarksRetrieveQuery {}

pub struct ExtrasBookmarksUpdateQuery {}

pub struct ExtrasBookmarksPartialUpdateQuery {}

pub struct ExtrasBookmarksDestroyQuery {}

pub struct UsersUsersRetrieveQuery {}

pub struct UsersUsersUpdateQuery {}

pub struct UsersUsersPartialUpdateQuery {}

pub struct UsersUsersDestroyQuery {}

pub struct ExtrasCustomFieldsListQuery {
    pub choice_set: Vec<String>,
    pub choice_set__n: Vec<String>,
    pub choice_set_id: Vec<i64>,
    pub choice_set_id__n: Vec<i64>,
    pub content_typ_id: Vec<i32>,
    pub content_typ_id__empty: Vec<i32>,
    pub content_typ_id__gt: Vec<i32>,
    pub content_typ_id__gte: Vec<i32>,
    pub content_typ_id__lt: Vec<i32>,
    pub content_typ_id__lte: Vec<i32>,
    pub content_typ_id__n: Vec<i32>,
    pub content_typs: String,
    pub content_typs__ic: String,
    pub content_typs__ie: String,
    pub content_typs__iew: String,
    pub content_typs__isw: String,
    pub content_typs__n: String,
    pub content_typs__nic: String,
    pub content_typs__nie: String,
    pub content_typs__niew: String,
    pub content_typs__nisw: String,
    pub description: Vec<String>,
    pub description__empty: bool,
    pub description__ic: Vec<String>,
    pub description__ie: Vec<String>,
    pub description__iew: Vec<String>,
    pub description__isw: Vec<String>,
    pub description__n: Vec<String>,
    pub description__nic: Vec<String>,
    pub description__nie: Vec<String>,
    pub description__niew: Vec<String>,
    pub description__nisw: Vec<String>,
    pub filter_logic: String,
    pub filter_logic__n: String,
    pub group_name: Vec<String>,
    pub group_name__empty: bool,
    pub group_name__ic: Vec<String>,
    pub group_name__ie: Vec<String>,
    pub group_name__iew: Vec<String>,
    pub group_name__isw: Vec<String>,
    pub group_name__n: Vec<String>,
    pub group_name__nic: Vec<String>,
    pub group_name__nie: Vec<String>,
    pub group_name__niew: Vec<String>,
    pub group_name__nisw: Vec<String>,
    pub id: Vec<i32>,
    pub id__empty: bool,
    pub id__gt: Vec<i32>,
    pub id__gte: Vec<i32>,
    pub id__lt: Vec<i32>,
    pub id__lte: Vec<i32>,
    pub id__n: Vec<i32>,
    pub is_cloneable: bool,
    pub limit: i64,
    pub name: Vec<String>,
    pub name__empty: bool,
    pub name__ic: Vec<String>,
    pub name__ie: Vec<String>,
    pub name__iew: Vec<String>,
    pub name__isw: Vec<String>,
    pub name__n: Vec<String>,
    pub name__nic: Vec<String>,
    pub name__nie: Vec<String>,
    pub name__niew: Vec<String>,
    pub name__nisw: Vec<String>,
    pub offset: i64,
    pub ordering: String,
    pub q: String,
    pub required: bool,
    pub search_weight: Vec<i32>,
    pub search_weight__empty: bool,
    pub search_weight__gt: Vec<i32>,
    pub search_weight__gte: Vec<i32>,
    pub search_weight__lt: Vec<i32>,
    pub search_weight__lte: Vec<i32>,
    pub search_weight__n: Vec<i32>,
    pub typ: Vec<String>,
    pub typ__n: Vec<String>,
    pub ui_visibility: String,
    pub ui_visibility__n: String,
    pub weight: Vec<i32>,
    pub weight__empty: bool,
    pub weight__gt: Vec<i32>,
    pub weight__gte: Vec<i32>,
    pub weight__lt: Vec<i32>,
    pub weight__lte: Vec<i32>,
    pub weight__n: Vec<i32>,
}

pub struct ExtrasCustomFieldsBulkUpdateQuery {}

pub struct ExtrasCustomFieldsCreateQuery {}

pub struct ExtrasCustomFieldsBulkPartialUpdateQuery {}

pub struct ExtrasCustomFieldsBulkDestroyQuery {}

pub struct IpamL2VpnTerminationsListQuery {
    pub assigned_object_typ: String,
    pub assigned_object_typ__n: String,
    pub assigned_object_typ_id: i64,
    pub assigned_object_typ_id__n: i64,
    pub created: Vec<String>,
    pub created__empty: Vec<String>,
    pub created__gt: Vec<String>,
    pub created__gte: Vec<String>,
    pub created__lt: Vec<String>,
    pub created__lte: Vec<String>,
    pub created__n: Vec<String>,
    pub created_by_request: String,
    pub device: Vec<String>,
    pub device__n: Vec<String>,
    pub device_id: Vec<i64>,
    pub device_id__n: Vec<i64>,
    pub id: Vec<i32>,
    pub id__empty: bool,
    pub id__gt: Vec<i32>,
    pub id__gte: Vec<i32>,
    pub id__lt: Vec<i32>,
    pub id__lte: Vec<i32>,
    pub id__n: Vec<i32>,
    pub interface: Vec<String>,
    pub interface__n: Vec<String>,
    pub interface_id: Vec<i64>,
    pub interface_id__n: Vec<i64>,
    pub l2vpn: Vec<String>,
    pub l2vpn__n: Vec<String>,
    pub l2vpn_id: Vec<i64>,
    pub l2vpn_id__n: Vec<i64>,
    pub last_updated: Vec<String>,
    pub last_updated__empty: Vec<String>,
    pub last_updated__gt: Vec<String>,
    pub last_updated__gte: Vec<String>,
    pub last_updated__lt: Vec<String>,
    pub last_updated__lte: Vec<String>,
    pub last_updated__n: Vec<String>,
    pub limit: i64,
    pub modified_by_request: String,
    pub offset: i64,
    pub ordering: String,
    pub q: String,
    pub region: Vec<String>,
    pub region_id: Vec<i32>,
    pub site: Vec<String>,
    pub site_id: Vec<i32>,
    pub tag: Vec<String>,
    pub tag__n: Vec<String>,
    pub updated_by_request: String,
    pub virtual_machine: Vec<String>,
    pub virtual_machine__n: Vec<String>,
    pub virtual_machine_id: Vec<i64>,
    pub virtual_machine_id__n: Vec<i64>,
    pub vlan: Vec<String>,
    pub vlan__n: Vec<String>,
    pub vlan_id: Vec<i64>,
    pub vlan_id__n: Vec<i64>,
    pub vlan_vid: i64,
    pub vlan_vid__empty: i64,
    pub vlan_vid__gt: i64,
    pub vlan_vid__gte: i64,
    pub vlan_vid__lt: i64,
    pub vlan_vid__lte: i64,
    pub vlan_vid__n: i64,
    pub vminterface: Vec<String>,
    pub vminterface__n: Vec<String>,
    pub vminterface_id: Vec<i64>,
    pub vminterface_id__n: Vec<i64>,
}

pub struct IpamL2VpnTerminationsBulkUpdateQuery {}

pub struct IpamL2VpnTerminationsCreateQuery {}

pub struct IpamL2VpnTerminationsBulkPartialUpdateQuery {}

pub struct IpamL2VpnTerminationsBulkDestroyQuery {}

pub struct IpamFhrpGroupAssignmentsRetrieveQuery {}

pub struct IpamFhrpGroupAssignmentsUpdateQuery {}

pub struct IpamFhrpGroupAssignmentsPartialUpdateQuery {}

pub struct IpamFhrpGroupAssignmentsDestroyQuery {}

pub struct UsersGroupsRetrieveQuery {}

pub struct UsersGroupsUpdateQuery {}

pub struct UsersGroupsPartialUpdateQuery {}

pub struct UsersGroupsDestroyQuery {}

pub struct VirtualizationVirtualMachinesBulkUpdateQuery {}

pub struct VirtualizationVirtualMachinesCreateQuery {}

pub struct VirtualizationVirtualMachinesBulkPartialUpdateQuery {}

pub struct VirtualizationVirtualMachinesBulkDestroyQuery {}

pub struct DcimInventoryItemRolesRetrieveQuery {}

pub struct DcimInventoryItemRolesUpdateQuery {}

pub struct DcimInventoryItemRolesPartialUpdateQuery {}

pub struct DcimInventoryItemRolesDestroyQuery {}

pub struct IpamRouteTargetsRetrieveQuery {}

pub struct IpamRouteTargetsUpdateQuery {}

pub struct IpamRouteTargetsPartialUpdateQuery {}

pub struct IpamRouteTargetsDestroyQuery {}

pub struct CoreDataSourcesRetrieveQuery {}

pub struct CoreDataSourcesUpdateQuery {}

pub struct CoreDataSourcesPartialUpdateQuery {}

pub struct CoreDataSourcesDestroyQuery {}

pub struct CircuitsProviderAccountsRetrieveQuery {}

pub struct CircuitsProviderAccountsUpdateQuery {}

pub struct CircuitsProviderAccountsPartialUpdateQuery {}

pub struct CircuitsProviderAccountsDestroyQuery {}

pub struct UsersUsersListQuery {
    pub email: Vec<String>,
    pub email__empty: bool,
    pub email__ic: Vec<String>,
    pub email__ie: Vec<String>,
    pub email__iew: Vec<String>,
    pub email__isw: Vec<String>,
    pub email__n: Vec<String>,
    pub email__nic: Vec<String>,
    pub email__nie: Vec<String>,
    pub email__niew: Vec<String>,
    pub email__nisw: Vec<String>,
    pub first_name: Vec<String>,
    pub first_name__empty: bool,
    pub first_name__ic: Vec<String>,
    pub first_name__ie: Vec<String>,
    pub first_name__iew: Vec<String>,
    pub first_name__isw: Vec<String>,
    pub first_name__n: Vec<String>,
    pub first_name__nic: Vec<String>,
    pub first_name__nie: Vec<String>,
    pub first_name__niew: Vec<String>,
    pub first_name__nisw: Vec<String>,
    pub group: Vec<String>,
    pub group__n: Vec<String>,
    pub group_id: Vec<i64>,
    pub group_id__n: Vec<i64>,
    pub id: Vec<i32>,
    pub id__empty: bool,
    pub id__gt: Vec<i32>,
    pub id__gte: Vec<i32>,
    pub id__lt: Vec<i32>,
    pub id__lte: Vec<i32>,
    pub id__n: Vec<i32>,
    pub is_active: bool,
    pub is_staff: bool,
    pub is_superuser: bool,
    pub last_name: Vec<String>,
    pub last_name__empty: bool,
    pub last_name__ic: Vec<String>,
    pub last_name__ie: Vec<String>,
    pub last_name__iew: Vec<String>,
    pub last_name__isw: Vec<String>,
    pub last_name__n: Vec<String>,
    pub last_name__nic: Vec<String>,
    pub last_name__nie: Vec<String>,
    pub last_name__niew: Vec<String>,
    pub last_name__nisw: Vec<String>,
    pub limit: i64,
    pub offset: i64,
    pub ordering: String,
    pub q: String,
    pub username: Vec<String>,
    pub username__empty: bool,
    pub username__ic: Vec<String>,
    pub username__ie: Vec<String>,
    pub username__iew: Vec<String>,
    pub username__isw: Vec<String>,
    pub username__n: Vec<String>,
    pub username__nic: Vec<String>,
    pub username__nie: Vec<String>,
    pub username__niew: Vec<String>,
    pub username__nisw: Vec<String>,
}

pub struct UsersUsersBulkUpdateQuery {}

pub struct UsersUsersCreateQuery {}

pub struct UsersUsersBulkPartialUpdateQuery {}

pub struct UsersUsersBulkDestroyQuery {}

pub struct IpamFhrpGroupsListQuery {
    pub auth_key: Vec<String>,
    pub auth_key__empty: bool,
    pub auth_key__ic: Vec<String>,
    pub auth_key__ie: Vec<String>,
    pub auth_key__iew: Vec<String>,
    pub auth_key__isw: Vec<String>,
    pub auth_key__n: Vec<String>,
    pub auth_key__nic: Vec<String>,
    pub auth_key__nie: Vec<String>,
    pub auth_key__niew: Vec<String>,
    pub auth_key__nisw: Vec<String>,
    pub auth_typ: Vec<String>,
    pub auth_typ__n: Vec<String>,
    pub created: Vec<String>,
    pub created__empty: Vec<String>,
    pub created__gt: Vec<String>,
    pub created__gte: Vec<String>,
    pub created__lt: Vec<String>,
    pub created__lte: Vec<String>,
    pub created__n: Vec<String>,
    pub created_by_request: String,
    pub group_id: Vec<i32>,
    pub group_id__empty: bool,
    pub group_id__gt: Vec<i32>,
    pub group_id__gte: Vec<i32>,
    pub group_id__lt: Vec<i32>,
    pub group_id__lte: Vec<i32>,
    pub group_id__n: Vec<i32>,
    pub id: Vec<i32>,
    pub id__empty: bool,
    pub id__gt: Vec<i32>,
    pub id__gte: Vec<i32>,
    pub id__lt: Vec<i32>,
    pub id__lte: Vec<i32>,
    pub id__n: Vec<i32>,
    pub last_updated: Vec<String>,
    pub last_updated__empty: Vec<String>,
    pub last_updated__gt: Vec<String>,
    pub last_updated__gte: Vec<String>,
    pub last_updated__lt: Vec<String>,
    pub last_updated__lte: Vec<String>,
    pub last_updated__n: Vec<String>,
    pub limit: i64,
    pub modified_by_request: String,
    pub name: Vec<String>,
    pub name__empty: bool,
    pub name__ic: Vec<String>,
    pub name__ie: Vec<String>,
    pub name__iew: Vec<String>,
    pub name__isw: Vec<String>,
    pub name__n: Vec<String>,
    pub name__nic: Vec<String>,
    pub name__nie: Vec<String>,
    pub name__niew: Vec<String>,
    pub name__nisw: Vec<String>,
    pub offset: i64,
    pub ordering: String,
    pub protocol: Vec<String>,
    pub protocol__n: Vec<String>,
    pub q: String,
    pub related_ip: Vec<String>,
    pub tag: Vec<String>,
    pub tag__n: Vec<String>,
    pub updated_by_request: String,
}

pub struct IpamFhrpGroupsBulkUpdateQuery {}

pub struct IpamFhrpGroupsCreateQuery {}

pub struct IpamFhrpGroupsBulkPartialUpdateQuery {}

pub struct IpamFhrpGroupsBulkDestroyQuery {}

pub struct VirtualizationClusterGroupsListQuery {
    pub contact: Vec<i64>,
    pub contact__n: Vec<i64>,
    pub contact_group: Vec<i64>,
    pub contact_group__n: Vec<i64>,
    pub contact_role: Vec<i64>,
    pub contact_role__n: Vec<i64>,
    pub created: Vec<String>,
    pub created__empty: Vec<String>,
    pub created__gt: Vec<String>,
    pub created__gte: Vec<String>,
    pub created__lt: Vec<String>,
    pub created__lte: Vec<String>,
    pub created__n: Vec<String>,
    pub created_by_request: String,
    pub description: Vec<String>,
    pub description__empty: bool,
    pub description__ic: Vec<String>,
    pub description__ie: Vec<String>,
    pub description__iew: Vec<String>,
    pub description__isw: Vec<String>,
    pub description__n: Vec<String>,
    pub description__nic: Vec<String>,
    pub description__nie: Vec<String>,
    pub description__niew: Vec<String>,
    pub description__nisw: Vec<String>,
    pub id: Vec<i32>,
    pub id__empty: bool,
    pub id__gt: Vec<i32>,
    pub id__gte: Vec<i32>,
    pub id__lt: Vec<i32>,
    pub id__lte: Vec<i32>,
    pub id__n: Vec<i32>,
    pub last_updated: Vec<String>,
    pub last_updated__empty: Vec<String>,
    pub last_updated__gt: Vec<String>,
    pub last_updated__gte: Vec<String>,
    pub last_updated__lt: Vec<String>,
    pub last_updated__lte: Vec<String>,
    pub last_updated__n: Vec<String>,
    pub limit: i64,
    pub modified_by_request: String,
    pub name: Vec<String>,
    pub name__empty: bool,
    pub name__ic: Vec<String>,
    pub name__ie: Vec<String>,
    pub name__iew: Vec<String>,
    pub name__isw: Vec<String>,
    pub name__n: Vec<String>,
    pub name__nic: Vec<String>,
    pub name__nie: Vec<String>,
    pub name__niew: Vec<String>,
    pub name__nisw: Vec<String>,
    pub offset: i64,
    pub ordering: String,
    pub q: String,
    pub slug: Vec<String>,
    pub slug__empty: bool,
    pub slug__ic: Vec<String>,
    pub slug__ie: Vec<String>,
    pub slug__iew: Vec<String>,
    pub slug__isw: Vec<String>,
    pub slug__n: Vec<String>,
    pub slug__nic: Vec<String>,
    pub slug__nie: Vec<String>,
    pub slug__niew: Vec<String>,
    pub slug__nisw: Vec<String>,
    pub tag: Vec<String>,
    pub tag__n: Vec<String>,
    pub updated_by_request: String,
}

pub struct VirtualizationClusterGroupsBulkUpdateQuery {}

pub struct VirtualizationClusterGroupsCreateQuery {}

pub struct VirtualizationClusterGroupsBulkPartialUpdateQuery {}

pub struct VirtualizationClusterGroupsBulkDestroyQuery {}

pub struct CircuitsCircuitTypesRetrieveQuery {}

pub struct CircuitsCircuitTypesUpdateQuery {}

pub struct CircuitsCircuitTypesPartialUpdateQuery {}

pub struct CircuitsCircuitTypesDestroyQuery {}

pub struct DcimPowerOutletsRetrieveQuery {}

pub struct DcimPowerOutletsUpdateQuery {}

pub struct DcimPowerOutletsPartialUpdateQuery {}

pub struct DcimPowerOutletsDestroyQuery {}

pub struct DcimVirtualDeviceContextsListQuery {
    pub created: Vec<String>,
    pub created__empty: Vec<String>,
    pub created__gt: Vec<String>,
    pub created__gte: Vec<String>,
    pub created__lt: Vec<String>,
    pub created__lte: Vec<String>,
    pub created__n: Vec<String>,
    pub created_by_request: String,
    pub device: Vec<i64>,
    pub device__n: Vec<i64>,
    pub device_id: Vec<i64>,
    pub device_id__n: Vec<i64>,
    pub has_primary_ip: bool,
    pub id: Vec<i32>,
    pub id__empty: bool,
    pub id__gt: Vec<i32>,
    pub id__gte: Vec<i32>,
    pub id__lt: Vec<i32>,
    pub id__lte: Vec<i32>,
    pub id__n: Vec<i32>,
    pub last_updated: Vec<String>,
    pub last_updated__empty: Vec<String>,
    pub last_updated__gt: Vec<String>,
    pub last_updated__gte: Vec<String>,
    pub last_updated__lt: Vec<String>,
    pub last_updated__lte: Vec<String>,
    pub last_updated__n: Vec<String>,
    pub limit: i64,
    pub modified_by_request: String,
    pub name: Vec<String>,
    pub name__empty: bool,
    pub name__ic: Vec<String>,
    pub name__ie: Vec<String>,
    pub name__iew: Vec<String>,
    pub name__isw: Vec<String>,
    pub name__n: Vec<String>,
    pub name__nic: Vec<String>,
    pub name__nie: Vec<String>,
    pub name__niew: Vec<String>,
    pub name__nisw: Vec<String>,
    pub offset: i64,
    pub ordering: String,
    pub q: String,
    pub status: Vec<String>,
    pub status__n: Vec<String>,
    pub tag: Vec<String>,
    pub tag__n: Vec<String>,
    pub tenant: Vec<String>,
    pub tenant__n: Vec<String>,
    pub tenant_group: Vec<i64>,
    pub tenant_group__n: Vec<i64>,
    pub tenant_group_id: Vec<i64>,
    pub tenant_group_id__n: Vec<i64>,
    pub tenant_id: Vec<i64>,
    pub tenant_id__n: Vec<i64>,
    pub updated_by_request: String,
}

pub struct DcimVirtualDeviceContextsBulkUpdateQuery {}

pub struct DcimVirtualDeviceContextsCreateQuery {}

pub struct DcimVirtualDeviceContextsBulkPartialUpdateQuery {}

pub struct DcimVirtualDeviceContextsBulkDestroyQuery {}

pub struct DcimPowerPortTemplatesRetrieveQuery {}

pub struct DcimPowerPortTemplatesUpdateQuery {}

pub struct DcimPowerPortTemplatesPartialUpdateQuery {}

pub struct DcimPowerPortTemplatesDestroyQuery {}

pub struct DcimConsoleServerPortsRetrieveQuery {}

pub struct DcimConsoleServerPortsUpdateQuery {}

pub struct DcimConsoleServerPortsPartialUpdateQuery {}

pub struct DcimConsoleServerPortsDestroyQuery {}

pub struct DcimRearPortsRetrieveQuery {}

pub struct DcimRearPortsUpdateQuery {}

pub struct DcimRearPortsPartialUpdateQuery {}

pub struct DcimRearPortsDestroyQuery {}

pub struct DcimSitesBulkUpdateQuery {}

pub struct DcimSitesCreateQuery {}

pub struct DcimSitesBulkPartialUpdateQuery {}

pub struct DcimSitesBulkDestroyQuery {}

pub struct DcimVirtualChassisListQuery {
    pub created: Vec<String>,
    pub created__empty: Vec<String>,
    pub created__gt: Vec<String>,
    pub created__gte: Vec<String>,
    pub created__lt: Vec<String>,
    pub created__lte: Vec<String>,
    pub created__n: Vec<String>,
    pub created_by_request: String,
    pub domain: Vec<String>,
    pub domain__empty: bool,
    pub domain__ic: Vec<String>,
    pub domain__ie: Vec<String>,
    pub domain__iew: Vec<String>,
    pub domain__isw: Vec<String>,
    pub domain__n: Vec<String>,
    pub domain__nic: Vec<String>,
    pub domain__nie: Vec<String>,
    pub domain__niew: Vec<String>,
    pub domain__nisw: Vec<String>,
    pub id: Vec<i32>,
    pub id__empty: bool,
    pub id__gt: Vec<i32>,
    pub id__gte: Vec<i32>,
    pub id__lt: Vec<i32>,
    pub id__lte: Vec<i32>,
    pub id__n: Vec<i32>,
    pub last_updated: Vec<String>,
    pub last_updated__empty: Vec<String>,
    pub last_updated__gt: Vec<String>,
    pub last_updated__gte: Vec<String>,
    pub last_updated__lt: Vec<String>,
    pub last_updated__lte: Vec<String>,
    pub last_updated__n: Vec<String>,
    pub limit: i64,
    pub master: Vec<String>,
    pub master__n: Vec<String>,
    pub master_id: Vec<i64>,
    pub master_id__n: Vec<i64>,
    pub modified_by_request: String,
    pub name: Vec<String>,
    pub name__empty: bool,
    pub name__ic: Vec<String>,
    pub name__ie: Vec<String>,
    pub name__iew: Vec<String>,
    pub name__isw: Vec<String>,
    pub name__n: Vec<String>,
    pub name__nic: Vec<String>,
    pub name__nie: Vec<String>,
    pub name__niew: Vec<String>,
    pub name__nisw: Vec<String>,
    pub offset: i64,
    pub ordering: String,
    pub q: String,
    pub region: Vec<i64>,
    pub region__n: Vec<i64>,
    pub region_id: Vec<i64>,
    pub region_id__n: Vec<i64>,
    pub site: Vec<String>,
    pub site__n: Vec<String>,
    pub site_group: Vec<i64>,
    pub site_group__n: Vec<i64>,
    pub site_group_id: Vec<i64>,
    pub site_group_id__n: Vec<i64>,
    pub site_id: Vec<i64>,
    pub site_id__n: Vec<i64>,
    pub tag: Vec<String>,
    pub tag__n: Vec<String>,
    pub tenant: Vec<String>,
    pub tenant__n: Vec<String>,
    pub tenant_id: Vec<i64>,
    pub tenant_id__n: Vec<i64>,
    pub updated_by_request: String,
}

pub struct DcimVirtualChassisBulkUpdateQuery {}

pub struct DcimVirtualChassisCreateQuery {}

pub struct DcimVirtualChassisBulkPartialUpdateQuery {}

pub struct DcimVirtualChassisBulkDestroyQuery {}

pub struct WirelessWirelessLansListQuery {
    pub auth_cipher: Vec<String>,
    pub auth_cipher__n: Vec<String>,
    pub auth_psk: Vec<String>,
    pub auth_psk__empty: bool,
    pub auth_psk__ic: Vec<String>,
    pub auth_psk__ie: Vec<String>,
    pub auth_psk__iew: Vec<String>,
    pub auth_psk__isw: Vec<String>,
    pub auth_psk__n: Vec<String>,
    pub auth_psk__nic: Vec<String>,
    pub auth_psk__nie: Vec<String>,
    pub auth_psk__niew: Vec<String>,
    pub auth_psk__nisw: Vec<String>,
    pub auth_typ: Vec<String>,
    pub auth_typ__n: Vec<String>,
    pub created: Vec<String>,
    pub created__empty: Vec<String>,
    pub created__gt: Vec<String>,
    pub created__gte: Vec<String>,
    pub created__lt: Vec<String>,
    pub created__lte: Vec<String>,
    pub created__n: Vec<String>,
    pub created_by_request: String,
    pub description: Vec<String>,
    pub description__empty: bool,
    pub description__ic: Vec<String>,
    pub description__ie: Vec<String>,
    pub description__iew: Vec<String>,
    pub description__isw: Vec<String>,
    pub description__n: Vec<String>,
    pub description__nic: Vec<String>,
    pub description__nie: Vec<String>,
    pub description__niew: Vec<String>,
    pub description__nisw: Vec<String>,
    pub group: Vec<i64>,
    pub group__n: Vec<i64>,
    pub group_id: Vec<i64>,
    pub group_id__n: Vec<i64>,
    pub id: Vec<i32>,
    pub id__empty: bool,
    pub id__gt: Vec<i32>,
    pub id__gte: Vec<i32>,
    pub id__lt: Vec<i32>,
    pub id__lte: Vec<i32>,
    pub id__n: Vec<i32>,
    pub last_updated: Vec<String>,
    pub last_updated__empty: Vec<String>,
    pub last_updated__gt: Vec<String>,
    pub last_updated__gte: Vec<String>,
    pub last_updated__lt: Vec<String>,
    pub last_updated__lte: Vec<String>,
    pub last_updated__n: Vec<String>,
    pub limit: i64,
    pub modified_by_request: String,
    pub offset: i64,
    pub ordering: String,
    pub q: String,
    pub ssid: Vec<String>,
    pub ssid__empty: bool,
    pub ssid__ic: Vec<String>,
    pub ssid__ie: Vec<String>,
    pub ssid__iew: Vec<String>,
    pub ssid__isw: Vec<String>,
    pub ssid__n: Vec<String>,
    pub ssid__nic: Vec<String>,
    pub ssid__nie: Vec<String>,
    pub ssid__niew: Vec<String>,
    pub ssid__nisw: Vec<String>,
    pub status: Vec<String>,
    pub status__n: Vec<String>,
    pub tag: Vec<String>,
    pub tag__n: Vec<String>,
    pub tenant: Vec<String>,
    pub tenant__n: Vec<String>,
    pub tenant_group: Vec<i64>,
    pub tenant_group__n: Vec<i64>,
    pub tenant_group_id: Vec<i64>,
    pub tenant_group_id__n: Vec<i64>,
    pub tenant_id: Vec<i64>,
    pub tenant_id__n: Vec<i64>,
    pub updated_by_request: String,
    pub vlan_id: Vec<i64>,
    pub vlan_id__n: Vec<i64>,
}

pub struct WirelessWirelessLansBulkUpdateQuery {}

pub struct WirelessWirelessLansCreateQuery {}

pub struct WirelessWirelessLansBulkPartialUpdateQuery {}

pub struct WirelessWirelessLansBulkDestroyQuery {}

pub struct ExtrasCustomFieldChoiceSetsRetrieveQuery {}

pub struct ExtrasCustomFieldChoiceSetsUpdateQuery {}

pub struct ExtrasCustomFieldChoiceSetsPartialUpdateQuery {}

pub struct ExtrasCustomFieldChoiceSetsDestroyQuery {}

pub struct IpamServiceTemplatesBulkUpdateQuery {}

pub struct IpamServiceTemplatesCreateQuery {}

pub struct IpamServiceTemplatesBulkPartialUpdateQuery {}

pub struct IpamServiceTemplatesBulkDestroyQuery {}

pub struct DcimModuleBaysRetrieveQuery {}

pub struct DcimModuleBaysUpdateQuery {}

pub struct DcimModuleBaysPartialUpdateQuery {}

pub struct DcimModuleBaysDestroyQuery {}

pub struct ExtrasExportTemplatesSyncCreateQuery {}

pub struct IpamPrefixesAvailablePrefixesListQuery {}

pub struct IpamPrefixesAvailablePrefixesCreateQuery {}

pub struct DcimFrontPortsListQuery {
    pub cable_end: String,
    pub cable_end__n: String,
    pub cabled: bool,
    pub color: Vec<String>,
    pub color__empty: bool,
    pub color__ic: Vec<String>,
    pub color__ie: Vec<String>,
    pub color__iew: Vec<String>,
    pub color__isw: Vec<String>,
    pub color__n: Vec<String>,
    pub color__nic: Vec<String>,
    pub color__nie: Vec<String>,
    pub color__niew: Vec<String>,
    pub color__nisw: Vec<String>,
    pub created: Vec<String>,
    pub created__empty: Vec<String>,
    pub created__gt: Vec<String>,
    pub created__gte: Vec<String>,
    pub created__lt: Vec<String>,
    pub created__lte: Vec<String>,
    pub created__n: Vec<String>,
    pub created_by_request: String,
    pub description: Vec<String>,
    pub description__empty: bool,
    pub description__ic: Vec<String>,
    pub description__ie: Vec<String>,
    pub description__iew: Vec<String>,
    pub description__isw: Vec<String>,
    pub description__n: Vec<String>,
    pub description__nic: Vec<String>,
    pub description__nie: Vec<String>,
    pub description__niew: Vec<String>,
    pub description__nisw: Vec<String>,
    pub device: Vec<String>,
    pub device__n: Vec<String>,
    pub device_id: Vec<i64>,
    pub device_id__n: Vec<i64>,
    pub device_role: Vec<String>,
    pub device_role__n: Vec<String>,
    pub device_role_id: Vec<i64>,
    pub device_role_id__n: Vec<i64>,
    pub device_typ: Vec<String>,
    pub device_typ__n: Vec<String>,
    pub device_typ_id: Vec<i64>,
    pub device_typ_id__n: Vec<i64>,
    pub id: Vec<i32>,
    pub id__empty: bool,
    pub id__gt: Vec<i32>,
    pub id__gte: Vec<i32>,
    pub id__lt: Vec<i32>,
    pub id__lte: Vec<i32>,
    pub id__n: Vec<i32>,
    pub label: Vec<String>,
    pub label__empty: bool,
    pub label__ic: Vec<String>,
    pub label__ie: Vec<String>,
    pub label__iew: Vec<String>,
    pub label__isw: Vec<String>,
    pub label__n: Vec<String>,
    pub label__nic: Vec<String>,
    pub label__nie: Vec<String>,
    pub label__niew: Vec<String>,
    pub label__nisw: Vec<String>,
    pub last_updated: Vec<String>,
    pub last_updated__empty: Vec<String>,
    pub last_updated__gt: Vec<String>,
    pub last_updated__gte: Vec<String>,
    pub last_updated__lt: Vec<String>,
    pub last_updated__lte: Vec<String>,
    pub last_updated__n: Vec<String>,
    pub limit: i64,
    pub location: Vec<String>,
    pub location__n: Vec<String>,
    pub location_id: Vec<i64>,
    pub location_id__n: Vec<i64>,
    pub modified_by_request: String,
    pub module_id: Vec<i64>,
    pub module_id__n: Vec<i64>,
    pub name: Vec<String>,
    pub name__empty: bool,
    pub name__ic: Vec<String>,
    pub name__ie: Vec<String>,
    pub name__iew: Vec<String>,
    pub name__isw: Vec<String>,
    pub name__n: Vec<String>,
    pub name__nic: Vec<String>,
    pub name__nie: Vec<String>,
    pub name__niew: Vec<String>,
    pub name__nisw: Vec<String>,
    pub occupied: bool,
    pub offset: i64,
    pub ordering: String,
    pub q: String,
    pub rack: Vec<String>,
    pub rack__n: Vec<String>,
    pub rack_id: Vec<i64>,
    pub rack_id__n: Vec<i64>,
    pub region: Vec<i64>,
    pub region__n: Vec<i64>,
    pub region_id: Vec<i64>,
    pub region_id__n: Vec<i64>,
    pub role: Vec<String>,
    pub role__n: Vec<String>,
    pub role_id: Vec<i64>,
    pub role_id__n: Vec<i64>,
    pub site: Vec<String>,
    pub site__n: Vec<String>,
    pub site_group: Vec<i64>,
    pub site_group__n: Vec<i64>,
    pub site_group_id: Vec<i64>,
    pub site_group_id__n: Vec<i64>,
    pub site_id: Vec<i64>,
    pub site_id__n: Vec<i64>,
    pub tag: Vec<String>,
    pub tag__n: Vec<String>,
    pub typ: Vec<String>,
    pub typ__n: Vec<String>,
    pub updated_by_request: String,
    pub virtual_chassis: Vec<String>,
    pub virtual_chassis__n: Vec<String>,
    pub virtual_chassis_id: Vec<i64>,
    pub virtual_chassis_id__n: Vec<i64>,
}

pub struct DcimFrontPortsBulkUpdateQuery {}

pub struct DcimFrontPortsCreateQuery {}

pub struct DcimFrontPortsBulkPartialUpdateQuery {}

pub struct DcimFrontPortsBulkDestroyQuery {}

pub struct CircuitsCircuitTypesListQuery {
    pub created: Vec<String>,
    pub created__empty: Vec<String>,
    pub created__gt: Vec<String>,
    pub created__gte: Vec<String>,
    pub created__lt: Vec<String>,
    pub created__lte: Vec<String>,
    pub created__n: Vec<String>,
    pub created_by_request: String,
    pub description: Vec<String>,
    pub description__empty: bool,
    pub description__ic: Vec<String>,
    pub description__ie: Vec<String>,
    pub description__iew: Vec<String>,
    pub description__isw: Vec<String>,
    pub description__n: Vec<String>,
    pub description__nic: Vec<String>,
    pub description__nie: Vec<String>,
    pub description__niew: Vec<String>,
    pub description__nisw: Vec<String>,
    pub id: Vec<i32>,
    pub id__empty: bool,
    pub id__gt: Vec<i32>,
    pub id__gte: Vec<i32>,
    pub id__lt: Vec<i32>,
    pub id__lte: Vec<i32>,
    pub id__n: Vec<i32>,
    pub last_updated: Vec<String>,
    pub last_updated__empty: Vec<String>,
    pub last_updated__gt: Vec<String>,
    pub last_updated__gte: Vec<String>,
    pub last_updated__lt: Vec<String>,
    pub last_updated__lte: Vec<String>,
    pub last_updated__n: Vec<String>,
    pub limit: i64,
    pub modified_by_request: String,
    pub name: Vec<String>,
    pub name__empty: bool,
    pub name__ic: Vec<String>,
    pub name__ie: Vec<String>,
    pub name__iew: Vec<String>,
    pub name__isw: Vec<String>,
    pub name__n: Vec<String>,
    pub name__nic: Vec<String>,
    pub name__nie: Vec<String>,
    pub name__niew: Vec<String>,
    pub name__nisw: Vec<String>,
    pub offset: i64,
    pub ordering: String,
    pub q: String,
    pub slug: Vec<String>,
    pub slug__empty: bool,
    pub slug__ic: Vec<String>,
    pub slug__ie: Vec<String>,
    pub slug__iew: Vec<String>,
    pub slug__isw: Vec<String>,
    pub slug__n: Vec<String>,
    pub slug__nic: Vec<String>,
    pub slug__nie: Vec<String>,
    pub slug__niew: Vec<String>,
    pub slug__nisw: Vec<String>,
    pub tag: Vec<String>,
    pub tag__n: Vec<String>,
    pub updated_by_request: String,
}

pub struct CircuitsCircuitTypesBulkUpdateQuery {}

pub struct CircuitsCircuitTypesCreateQuery {}

pub struct CircuitsCircuitTypesBulkPartialUpdateQuery {}

pub struct CircuitsCircuitTypesBulkDestroyQuery {}

pub struct ExtrasConfigContextsSyncCreateQuery {}

pub struct DcimConsolePortTemplatesRetrieveQuery {}

pub struct DcimConsolePortTemplatesUpdateQuery {}

pub struct DcimConsolePortTemplatesPartialUpdateQuery {}

pub struct DcimConsolePortTemplatesDestroyQuery {}

pub struct IpamServiceTemplatesRetrieveQuery {}

pub struct IpamServiceTemplatesUpdateQuery {}

pub struct IpamServiceTemplatesPartialUpdateQuery {}

pub struct IpamServiceTemplatesDestroyQuery {}

pub struct ExtrasCustomLinksRetrieveQuery {}

pub struct ExtrasCustomLinksUpdateQuery {}

pub struct ExtrasCustomLinksPartialUpdateQuery {}

pub struct ExtrasCustomLinksDestroyQuery {}

pub struct DcimModuleBaysListQuery {
    pub created: Vec<String>,
    pub created__empty: Vec<String>,
    pub created__gt: Vec<String>,
    pub created__gte: Vec<String>,
    pub created__lt: Vec<String>,
    pub created__lte: Vec<String>,
    pub created__n: Vec<String>,
    pub created_by_request: String,
    pub description: Vec<String>,
    pub description__empty: bool,
    pub description__ic: Vec<String>,
    pub description__ie: Vec<String>,
    pub description__iew: Vec<String>,
    pub description__isw: Vec<String>,
    pub description__n: Vec<String>,
    pub description__nic: Vec<String>,
    pub description__nie: Vec<String>,
    pub description__niew: Vec<String>,
    pub description__nisw: Vec<String>,
    pub device: Vec<String>,
    pub device__n: Vec<String>,
    pub device_id: Vec<i64>,
    pub device_id__n: Vec<i64>,
    pub device_role: Vec<String>,
    pub device_role__n: Vec<String>,
    pub device_role_id: Vec<i64>,
    pub device_role_id__n: Vec<i64>,
    pub device_typ: Vec<String>,
    pub device_typ__n: Vec<String>,
    pub device_typ_id: Vec<i64>,
    pub device_typ_id__n: Vec<i64>,
    pub id: Vec<i32>,
    pub id__empty: bool,
    pub id__gt: Vec<i32>,
    pub id__gte: Vec<i32>,
    pub id__lt: Vec<i32>,
    pub id__lte: Vec<i32>,
    pub id__n: Vec<i32>,
    pub label: Vec<String>,
    pub label__empty: bool,
    pub label__ic: Vec<String>,
    pub label__ie: Vec<String>,
    pub label__iew: Vec<String>,
    pub label__isw: Vec<String>,
    pub label__n: Vec<String>,
    pub label__nic: Vec<String>,
    pub label__nie: Vec<String>,
    pub label__niew: Vec<String>,
    pub label__nisw: Vec<String>,
    pub last_updated: Vec<String>,
    pub last_updated__empty: Vec<String>,
    pub last_updated__gt: Vec<String>,
    pub last_updated__gte: Vec<String>,
    pub last_updated__lt: Vec<String>,
    pub last_updated__lte: Vec<String>,
    pub last_updated__n: Vec<String>,
    pub limit: i64,
    pub location: Vec<String>,
    pub location__n: Vec<String>,
    pub location_id: Vec<i64>,
    pub location_id__n: Vec<i64>,
    pub modified_by_request: String,
    pub name: Vec<String>,
    pub name__empty: bool,
    pub name__ic: Vec<String>,
    pub name__ie: Vec<String>,
    pub name__iew: Vec<String>,
    pub name__isw: Vec<String>,
    pub name__n: Vec<String>,
    pub name__nic: Vec<String>,
    pub name__nie: Vec<String>,
    pub name__niew: Vec<String>,
    pub name__nisw: Vec<String>,
    pub offset: i64,
    pub ordering: String,
    pub q: String,
    pub rack: Vec<String>,
    pub rack__n: Vec<String>,
    pub rack_id: Vec<i64>,
    pub rack_id__n: Vec<i64>,
    pub region: Vec<i64>,
    pub region__n: Vec<i64>,
    pub region_id: Vec<i64>,
    pub region_id__n: Vec<i64>,
    pub role: Vec<String>,
    pub role__n: Vec<String>,
    pub role_id: Vec<i64>,
    pub role_id__n: Vec<i64>,
    pub site: Vec<String>,
    pub site__n: Vec<String>,
    pub site_group: Vec<i64>,
    pub site_group__n: Vec<i64>,
    pub site_group_id: Vec<i64>,
    pub site_group_id__n: Vec<i64>,
    pub site_id: Vec<i64>,
    pub site_id__n: Vec<i64>,
    pub tag: Vec<String>,
    pub tag__n: Vec<String>,
    pub updated_by_request: String,
    pub virtual_chassis: Vec<String>,
    pub virtual_chassis__n: Vec<String>,
    pub virtual_chassis_id: Vec<i64>,
    pub virtual_chassis_id__n: Vec<i64>,
}

pub struct DcimModuleBaysBulkUpdateQuery {}

pub struct DcimModuleBaysCreateQuery {}

pub struct DcimModuleBaysBulkPartialUpdateQuery {}

pub struct DcimModuleBaysBulkDestroyQuery {}

pub struct DcimInventoryItemTemplatesRetrieveQuery {}

pub struct DcimInventoryItemTemplatesUpdateQuery {}

pub struct DcimInventoryItemTemplatesPartialUpdateQuery {}

pub struct DcimInventoryItemTemplatesDestroyQuery {}

pub struct ExtrasConfigContextsRetrieveQuery {}

pub struct ExtrasConfigContextsUpdateQuery {}

pub struct ExtrasConfigContextsPartialUpdateQuery {}

pub struct ExtrasConfigContextsDestroyQuery {}

pub struct DcimRegionsListQuery {
    pub contact: Vec<i64>,
    pub contact__n: Vec<i64>,
    pub contact_group: Vec<i64>,
    pub contact_group__n: Vec<i64>,
    pub contact_role: Vec<i64>,
    pub contact_role__n: Vec<i64>,
    pub created: Vec<String>,
    pub created__empty: Vec<String>,
    pub created__gt: Vec<String>,
    pub created__gte: Vec<String>,
    pub created__lt: Vec<String>,
    pub created__lte: Vec<String>,
    pub created__n: Vec<String>,
    pub created_by_request: String,
    pub description: Vec<String>,
    pub description__empty: bool,
    pub description__ic: Vec<String>,
    pub description__ie: Vec<String>,
    pub description__iew: Vec<String>,
    pub description__isw: Vec<String>,
    pub description__n: Vec<String>,
    pub description__nic: Vec<String>,
    pub description__nie: Vec<String>,
    pub description__niew: Vec<String>,
    pub description__nisw: Vec<String>,
    pub id: Vec<i32>,
    pub id__empty: bool,
    pub id__gt: Vec<i32>,
    pub id__gte: Vec<i32>,
    pub id__lt: Vec<i32>,
    pub id__lte: Vec<i32>,
    pub id__n: Vec<i32>,
    pub last_updated: Vec<String>,
    pub last_updated__empty: Vec<String>,
    pub last_updated__gt: Vec<String>,
    pub last_updated__gte: Vec<String>,
    pub last_updated__lt: Vec<String>,
    pub last_updated__lte: Vec<String>,
    pub last_updated__n: Vec<String>,
    pub limit: i64,
    pub modified_by_request: String,
    pub name: Vec<String>,
    pub name__empty: bool,
    pub name__ic: Vec<String>,
    pub name__ie: Vec<String>,
    pub name__iew: Vec<String>,
    pub name__isw: Vec<String>,
    pub name__n: Vec<String>,
    pub name__nic: Vec<String>,
    pub name__nie: Vec<String>,
    pub name__niew: Vec<String>,
    pub name__nisw: Vec<String>,
    pub offset: i64,
    pub ordering: String,
    pub parent: Vec<String>,
    pub parent__n: Vec<String>,
    pub parent_id: Vec<i64>,
    pub parent_id__n: Vec<i64>,
    pub q: String,
    pub slug: Vec<String>,
    pub slug__empty: bool,
    pub slug__ic: Vec<String>,
    pub slug__ie: Vec<String>,
    pub slug__iew: Vec<String>,
    pub slug__isw: Vec<String>,
    pub slug__n: Vec<String>,
    pub slug__nic: Vec<String>,
    pub slug__nie: Vec<String>,
    pub slug__niew: Vec<String>,
    pub slug__nisw: Vec<String>,
    pub tag: Vec<String>,
    pub tag__n: Vec<String>,
    pub updated_by_request: String,
}

pub struct DcimRegionsBulkUpdateQuery {}

pub struct DcimRegionsCreateQuery {}

pub struct DcimRegionsBulkPartialUpdateQuery {}

pub struct DcimRegionsBulkDestroyQuery {}

pub struct IpamRirsRetrieveQuery {}

pub struct IpamRirsUpdateQuery {}

pub struct IpamRirsPartialUpdateQuery {}

pub struct IpamRirsDestroyQuery {}

pub struct DcimManufacturersRetrieveQuery {}

pub struct DcimManufacturersUpdateQuery {}

pub struct DcimManufacturersPartialUpdateQuery {}

pub struct DcimManufacturersDestroyQuery {}

pub struct IpamVlansListQuery {
    pub available_on_device: String,
    pub available_on_virtualmachine: String,
    pub created: Vec<String>,
    pub created__empty: Vec<String>,
    pub created__gt: Vec<String>,
    pub created__gte: Vec<String>,
    pub created__lt: Vec<String>,
    pub created__lte: Vec<String>,
    pub created__n: Vec<String>,
    pub created_by_request: String,
    pub description: Vec<String>,
    pub description__empty: bool,
    pub description__ic: Vec<String>,
    pub description__ie: Vec<String>,
    pub description__iew: Vec<String>,
    pub description__isw: Vec<String>,
    pub description__n: Vec<String>,
    pub description__nic: Vec<String>,
    pub description__nie: Vec<String>,
    pub description__niew: Vec<String>,
    pub description__nisw: Vec<String>,
    pub group: Vec<String>,
    pub group__n: Vec<String>,
    pub group_id: Vec<i64>,
    pub group_id__n: Vec<i64>,
    pub id: Vec<i32>,
    pub id__empty: bool,
    pub id__gt: Vec<i32>,
    pub id__gte: Vec<i32>,
    pub id__lt: Vec<i32>,
    pub id__lte: Vec<i32>,
    pub id__n: Vec<i32>,
    pub l2vpn: Vec<i64>,
    pub l2vpn__n: Vec<i64>,
    pub l2vpn_id: Vec<i64>,
    pub l2vpn_id__n: Vec<i64>,
    pub last_updated: Vec<String>,
    pub last_updated__empty: Vec<String>,
    pub last_updated__gt: Vec<String>,
    pub last_updated__gte: Vec<String>,
    pub last_updated__lt: Vec<String>,
    pub last_updated__lte: Vec<String>,
    pub last_updated__n: Vec<String>,
    pub limit: i64,
    pub modified_by_request: String,
    pub name: Vec<String>,
    pub name__empty: bool,
    pub name__ic: Vec<String>,
    pub name__ie: Vec<String>,
    pub name__iew: Vec<String>,
    pub name__isw: Vec<String>,
    pub name__n: Vec<String>,
    pub name__nic: Vec<String>,
    pub name__nie: Vec<String>,
    pub name__niew: Vec<String>,
    pub name__nisw: Vec<String>,
    pub offset: i64,
    pub ordering: String,
    pub q: String,
    pub region: Vec<i64>,
    pub region__n: Vec<i64>,
    pub region_id: Vec<i64>,
    pub region_id__n: Vec<i64>,
    pub role: Vec<String>,
    pub role__n: Vec<String>,
    pub role_id: Vec<i64>,
    pub role_id__n: Vec<i64>,
    pub site: Vec<String>,
    pub site__n: Vec<String>,
    pub site_group: Vec<i64>,
    pub site_group__n: Vec<i64>,
    pub site_group_id: Vec<i64>,
    pub site_group_id__n: Vec<i64>,
    pub site_id: Vec<i64>,
    pub site_id__n: Vec<i64>,
    pub status: Vec<String>,
    pub status__n: Vec<String>,
    pub tag: Vec<String>,
    pub tag__n: Vec<String>,
    pub tenant: Vec<String>,
    pub tenant__n: Vec<String>,
    pub tenant_group: Vec<i64>,
    pub tenant_group__n: Vec<i64>,
    pub tenant_group_id: Vec<i64>,
    pub tenant_group_id__n: Vec<i64>,
    pub tenant_id: Vec<i64>,
    pub tenant_id__n: Vec<i64>,
    pub updated_by_request: String,
    pub vid: Vec<i32>,
    pub vid__empty: bool,
    pub vid__gt: Vec<i32>,
    pub vid__gte: Vec<i32>,
    pub vid__lt: Vec<i32>,
    pub vid__lte: Vec<i32>,
    pub vid__n: Vec<i32>,
}

pub struct IpamVlansBulkUpdateQuery {}

pub struct IpamVlansCreateQuery {}

pub struct IpamVlansBulkPartialUpdateQuery {}

pub struct IpamVlansBulkDestroyQuery {}

pub struct TenancyTenantsListQuery {
    pub contact: Vec<i64>,
    pub contact__n: Vec<i64>,
    pub contact_group: Vec<i64>,
    pub contact_group__n: Vec<i64>,
    pub contact_role: Vec<i64>,
    pub contact_role__n: Vec<i64>,
    pub created: Vec<String>,
    pub created__empty: Vec<String>,
    pub created__gt: Vec<String>,
    pub created__gte: Vec<String>,
    pub created__lt: Vec<String>,
    pub created__lte: Vec<String>,
    pub created__n: Vec<String>,
    pub created_by_request: String,
    pub description: Vec<String>,
    pub description__empty: bool,
    pub description__ic: Vec<String>,
    pub description__ie: Vec<String>,
    pub description__iew: Vec<String>,
    pub description__isw: Vec<String>,
    pub description__n: Vec<String>,
    pub description__nic: Vec<String>,
    pub description__nie: Vec<String>,
    pub description__niew: Vec<String>,
    pub description__nisw: Vec<String>,
    pub group: Vec<i64>,
    pub group__n: Vec<i64>,
    pub group_id: Vec<i64>,
    pub group_id__n: Vec<i64>,
    pub id: Vec<i32>,
    pub id__empty: bool,
    pub id__gt: Vec<i32>,
    pub id__gte: Vec<i32>,
    pub id__lt: Vec<i32>,
    pub id__lte: Vec<i32>,
    pub id__n: Vec<i32>,
    pub last_updated: Vec<String>,
    pub last_updated__empty: Vec<String>,
    pub last_updated__gt: Vec<String>,
    pub last_updated__gte: Vec<String>,
    pub last_updated__lt: Vec<String>,
    pub last_updated__lte: Vec<String>,
    pub last_updated__n: Vec<String>,
    pub limit: i64,
    pub modified_by_request: String,
    pub name: Vec<String>,
    pub name__empty: bool,
    pub name__ic: Vec<String>,
    pub name__ie: Vec<String>,
    pub name__iew: Vec<String>,
    pub name__isw: Vec<String>,
    pub name__n: Vec<String>,
    pub name__nic: Vec<String>,
    pub name__nie: Vec<String>,
    pub name__niew: Vec<String>,
    pub name__nisw: Vec<String>,
    pub offset: i64,
    pub ordering: String,
    pub q: String,
    pub slug: Vec<String>,
    pub slug__empty: bool,
    pub slug__ic: Vec<String>,
    pub slug__ie: Vec<String>,
    pub slug__iew: Vec<String>,
    pub slug__isw: Vec<String>,
    pub slug__n: Vec<String>,
    pub slug__nic: Vec<String>,
    pub slug__nie: Vec<String>,
    pub slug__niew: Vec<String>,
    pub slug__nisw: Vec<String>,
    pub tag: Vec<String>,
    pub tag__n: Vec<String>,
    pub updated_by_request: String,
}

pub struct TenancyTenantsBulkUpdateQuery {}

pub struct TenancyTenantsCreateQuery {}

pub struct TenancyTenantsBulkPartialUpdateQuery {}

pub struct TenancyTenantsBulkDestroyQuery {}

pub struct DcimRackRolesRetrieveQuery {}

pub struct DcimRackRolesUpdateQuery {}

pub struct DcimRackRolesPartialUpdateQuery {}

pub struct DcimRackRolesDestroyQuery {}

pub struct ExtrasExportTemplatesListQuery {
    pub content_typ_id: Vec<i32>,
    pub content_typ_id__empty: Vec<i32>,
    pub content_typ_id__gt: Vec<i32>,
    pub content_typ_id__gte: Vec<i32>,
    pub content_typ_id__lt: Vec<i32>,
    pub content_typ_id__lte: Vec<i32>,
    pub content_typ_id__n: Vec<i32>,
    pub content_typs: String,
    pub content_typs__ic: String,
    pub content_typs__ie: String,
    pub content_typs__iew: String,
    pub content_typs__isw: String,
    pub content_typs__n: String,
    pub content_typs__nic: String,
    pub content_typs__nie: String,
    pub content_typs__niew: String,
    pub content_typs__nisw: String,
    pub data_file_id: Vec<i64>,
    pub data_file_id__n: Vec<i64>,
    pub data_source_id: Vec<i64>,
    pub data_source_id__n: Vec<i64>,
    pub data_synced: Vec<String>,
    pub data_synced__empty: bool,
    pub data_synced__gt: Vec<String>,
    pub data_synced__gte: Vec<String>,
    pub data_synced__lt: Vec<String>,
    pub data_synced__lte: Vec<String>,
    pub data_synced__n: Vec<String>,
    pub description: Vec<String>,
    pub description__empty: bool,
    pub description__ic: Vec<String>,
    pub description__ie: Vec<String>,
    pub description__iew: Vec<String>,
    pub description__isw: Vec<String>,
    pub description__n: Vec<String>,
    pub description__nic: Vec<String>,
    pub description__nie: Vec<String>,
    pub description__niew: Vec<String>,
    pub description__nisw: Vec<String>,
    pub id: Vec<i32>,
    pub id__empty: bool,
    pub id__gt: Vec<i32>,
    pub id__gte: Vec<i32>,
    pub id__lt: Vec<i32>,
    pub id__lte: Vec<i32>,
    pub id__n: Vec<i32>,
    pub limit: i64,
    pub name: Vec<String>,
    pub name__empty: bool,
    pub name__ic: Vec<String>,
    pub name__ie: Vec<String>,
    pub name__iew: Vec<String>,
    pub name__isw: Vec<String>,
    pub name__n: Vec<String>,
    pub name__nic: Vec<String>,
    pub name__nie: Vec<String>,
    pub name__niew: Vec<String>,
    pub name__nisw: Vec<String>,
    pub offset: i64,
    pub ordering: String,
    pub q: String,
}

pub struct ExtrasExportTemplatesBulkUpdateQuery {}

pub struct ExtrasExportTemplatesCreateQuery {}

pub struct ExtrasExportTemplatesBulkPartialUpdateQuery {}

pub struct ExtrasExportTemplatesBulkDestroyQuery {}

pub struct VirtualizationClustersListQuery {
    pub contact: Vec<i64>,
    pub contact__n: Vec<i64>,
    pub contact_group: Vec<i64>,
    pub contact_group__n: Vec<i64>,
    pub contact_role: Vec<i64>,
    pub contact_role__n: Vec<i64>,
    pub created: Vec<String>,
    pub created__empty: Vec<String>,
    pub created__gt: Vec<String>,
    pub created__gte: Vec<String>,
    pub created__lt: Vec<String>,
    pub created__lte: Vec<String>,
    pub created__n: Vec<String>,
    pub created_by_request: String,
    pub group: Vec<String>,
    pub group__n: Vec<String>,
    pub group_id: Vec<i64>,
    pub group_id__n: Vec<i64>,
    pub id: Vec<i32>,
    pub id__empty: bool,
    pub id__gt: Vec<i32>,
    pub id__gte: Vec<i32>,
    pub id__lt: Vec<i32>,
    pub id__lte: Vec<i32>,
    pub id__n: Vec<i32>,
    pub last_updated: Vec<String>,
    pub last_updated__empty: Vec<String>,
    pub last_updated__gt: Vec<String>,
    pub last_updated__gte: Vec<String>,
    pub last_updated__lt: Vec<String>,
    pub last_updated__lte: Vec<String>,
    pub last_updated__n: Vec<String>,
    pub limit: i64,
    pub modified_by_request: String,
    pub name: Vec<String>,
    pub name__empty: bool,
    pub name__ic: Vec<String>,
    pub name__ie: Vec<String>,
    pub name__iew: Vec<String>,
    pub name__isw: Vec<String>,
    pub name__n: Vec<String>,
    pub name__nic: Vec<String>,
    pub name__nie: Vec<String>,
    pub name__niew: Vec<String>,
    pub name__nisw: Vec<String>,
    pub offset: i64,
    pub ordering: String,
    pub q: String,
    pub region: Vec<i64>,
    pub region__n: Vec<i64>,
    pub region_id: Vec<i64>,
    pub region_id__n: Vec<i64>,
    pub site: Vec<String>,
    pub site__n: Vec<String>,
    pub site_group: Vec<i64>,
    pub site_group__n: Vec<i64>,
    pub site_group_id: Vec<i64>,
    pub site_group_id__n: Vec<i64>,
    pub site_id: Vec<i64>,
    pub site_id__n: Vec<i64>,
    pub status: Vec<String>,
    pub status__n: Vec<String>,
    pub tag: Vec<String>,
    pub tag__n: Vec<String>,
    pub tenant: Vec<String>,
    pub tenant__n: Vec<String>,
    pub tenant_group: Vec<i64>,
    pub tenant_group__n: Vec<i64>,
    pub tenant_group_id: Vec<i64>,
    pub tenant_group_id__n: Vec<i64>,
    pub tenant_id: Vec<i64>,
    pub tenant_id__n: Vec<i64>,
    pub typ: Vec<String>,
    pub typ__n: Vec<String>,
    pub typ_id: Vec<i64>,
    pub typ_id__n: Vec<i64>,
    pub updated_by_request: String,
}

pub struct VirtualizationClustersBulkUpdateQuery {}

pub struct VirtualizationClustersCreateQuery {}

pub struct VirtualizationClustersBulkPartialUpdateQuery {}

pub struct VirtualizationClustersBulkDestroyQuery {}

pub struct ExtrasConfigContextsListQuery {
    pub cluster_group: Vec<String>,
    pub cluster_group__n: Vec<String>,
    pub cluster_group_id: Vec<i64>,
    pub cluster_group_id__n: Vec<i64>,
    pub cluster_id: Vec<i64>,
    pub cluster_id__n: Vec<i64>,
    pub cluster_typ: Vec<String>,
    pub cluster_typ__n: Vec<String>,
    pub cluster_typ_id: Vec<i64>,
    pub cluster_typ_id__n: Vec<i64>,
    pub created: Vec<String>,
    pub created__empty: Vec<String>,
    pub created__gt: Vec<String>,
    pub created__gte: Vec<String>,
    pub created__lt: Vec<String>,
    pub created__lte: Vec<String>,
    pub created__n: Vec<String>,
    pub created_by_request: String,
    pub data_file_id: Vec<i64>,
    pub data_file_id__n: Vec<i64>,
    pub data_source_id: Vec<i64>,
    pub data_source_id__n: Vec<i64>,
    pub data_synced: Vec<String>,
    pub data_synced__empty: bool,
    pub data_synced__gt: Vec<String>,
    pub data_synced__gte: Vec<String>,
    pub data_synced__lt: Vec<String>,
    pub data_synced__lte: Vec<String>,
    pub data_synced__n: Vec<String>,
    pub device_typ_id: Vec<i64>,
    pub device_typ_id__n: Vec<i64>,
    pub id: Vec<i32>,
    pub id__empty: bool,
    pub id__gt: Vec<i32>,
    pub id__gte: Vec<i32>,
    pub id__lt: Vec<i32>,
    pub id__lte: Vec<i32>,
    pub id__n: Vec<i32>,
    pub is_active: bool,
    pub last_updated: Vec<String>,
    pub last_updated__empty: Vec<String>,
    pub last_updated__gt: Vec<String>,
    pub last_updated__gte: Vec<String>,
    pub last_updated__lt: Vec<String>,
    pub last_updated__lte: Vec<String>,
    pub last_updated__n: Vec<String>,
    pub limit: i64,
    pub location: Vec<String>,
    pub location__n: Vec<String>,
    pub location_id: Vec<i64>,
    pub location_id__n: Vec<i64>,
    pub modified_by_request: String,
    pub name: Vec<String>,
    pub name__empty: bool,
    pub name__ic: Vec<String>,
    pub name__ie: Vec<String>,
    pub name__iew: Vec<String>,
    pub name__isw: Vec<String>,
    pub name__n: Vec<String>,
    pub name__nic: Vec<String>,
    pub name__nie: Vec<String>,
    pub name__niew: Vec<String>,
    pub name__nisw: Vec<String>,
    pub offset: i64,
    pub ordering: String,
    pub platform: Vec<String>,
    pub platform__n: Vec<String>,
    pub platform_id: Vec<i64>,
    pub platform_id__n: Vec<i64>,
    pub q: String,
    pub region: Vec<String>,
    pub region__n: Vec<String>,
    pub region_id: Vec<i64>,
    pub region_id__n: Vec<i64>,
    pub role: Vec<String>,
    pub role__n: Vec<String>,
    pub role_id: Vec<i64>,
    pub role_id__n: Vec<i64>,
    pub site: Vec<String>,
    pub site__n: Vec<String>,
    pub site_group: Vec<String>,
    pub site_group__n: Vec<String>,
    pub site_group_id: Vec<i64>,
    pub site_group_id__n: Vec<i64>,
    pub site_id: Vec<i64>,
    pub site_id__n: Vec<i64>,
    pub tag: Vec<String>,
    pub tag__n: Vec<String>,
    pub tag_id: Vec<i64>,
    pub tag_id__n: Vec<i64>,
    pub tenant: Vec<String>,
    pub tenant__n: Vec<String>,
    pub tenant_group: Vec<String>,
    pub tenant_group__n: Vec<String>,
    pub tenant_group_id: Vec<i64>,
    pub tenant_group_id__n: Vec<i64>,
    pub tenant_id: Vec<i64>,
    pub tenant_id__n: Vec<i64>,
    pub updated_by_request: String,
}

pub struct ExtrasConfigContextsBulkUpdateQuery {}

pub struct ExtrasConfigContextsCreateQuery {}

pub struct ExtrasConfigContextsBulkPartialUpdateQuery {}

pub struct ExtrasConfigContextsBulkDestroyQuery {}

pub struct ExtrasImageAttachmentsRetrieveQuery {}

pub struct ExtrasImageAttachmentsUpdateQuery {}

pub struct ExtrasImageAttachmentsPartialUpdateQuery {}

pub struct ExtrasImageAttachmentsDestroyQuery {}

pub struct DcimDeviceRolesListQuery {
    pub color: Vec<String>,
    pub color__empty: bool,
    pub color__ic: Vec<String>,
    pub color__ie: Vec<String>,
    pub color__iew: Vec<String>,
    pub color__isw: Vec<String>,
    pub color__n: Vec<String>,
    pub color__nic: Vec<String>,
    pub color__nie: Vec<String>,
    pub color__niew: Vec<String>,
    pub color__nisw: Vec<String>,
    pub config_template_id: Vec<i64>,
    pub config_template_id__n: Vec<i64>,
    pub created: Vec<String>,
    pub created__empty: Vec<String>,
    pub created__gt: Vec<String>,
    pub created__gte: Vec<String>,
    pub created__lt: Vec<String>,
    pub created__lte: Vec<String>,
    pub created__n: Vec<String>,
    pub created_by_request: String,
    pub description: Vec<String>,
    pub description__empty: bool,
    pub description__ic: Vec<String>,
    pub description__ie: Vec<String>,
    pub description__iew: Vec<String>,
    pub description__isw: Vec<String>,
    pub description__n: Vec<String>,
    pub description__nic: Vec<String>,
    pub description__nie: Vec<String>,
    pub description__niew: Vec<String>,
    pub description__nisw: Vec<String>,
    pub id: Vec<i32>,
    pub id__empty: bool,
    pub id__gt: Vec<i32>,
    pub id__gte: Vec<i32>,
    pub id__lt: Vec<i32>,
    pub id__lte: Vec<i32>,
    pub id__n: Vec<i32>,
    pub last_updated: Vec<String>,
    pub last_updated__empty: Vec<String>,
    pub last_updated__gt: Vec<String>,
    pub last_updated__gte: Vec<String>,
    pub last_updated__lt: Vec<String>,
    pub last_updated__lte: Vec<String>,
    pub last_updated__n: Vec<String>,
    pub limit: i64,
    pub modified_by_request: String,
    pub name: Vec<String>,
    pub name__empty: bool,
    pub name__ic: Vec<String>,
    pub name__ie: Vec<String>,
    pub name__iew: Vec<String>,
    pub name__isw: Vec<String>,
    pub name__n: Vec<String>,
    pub name__nic: Vec<String>,
    pub name__nie: Vec<String>,
    pub name__niew: Vec<String>,
    pub name__nisw: Vec<String>,
    pub offset: i64,
    pub ordering: String,
    pub q: String,
    pub slug: Vec<String>,
    pub slug__empty: bool,
    pub slug__ic: Vec<String>,
    pub slug__ie: Vec<String>,
    pub slug__iew: Vec<String>,
    pub slug__isw: Vec<String>,
    pub slug__n: Vec<String>,
    pub slug__nic: Vec<String>,
    pub slug__nie: Vec<String>,
    pub slug__niew: Vec<String>,
    pub slug__nisw: Vec<String>,
    pub tag: Vec<String>,
    pub tag__n: Vec<String>,
    pub updated_by_request: String,
    pub vm_role: bool,
}

pub struct DcimDeviceRolesBulkUpdateQuery {}

pub struct DcimDeviceRolesCreateQuery {}

pub struct DcimDeviceRolesBulkPartialUpdateQuery {}

pub struct DcimDeviceRolesBulkDestroyQuery {}

pub struct UsersTokensListQuery {
    pub created: String,
    pub created__gte: String,
    pub created__lte: String,
    pub description: Vec<String>,
    pub description__empty: bool,
    pub description__ic: Vec<String>,
    pub description__ie: Vec<String>,
    pub description__iew: Vec<String>,
    pub description__isw: Vec<String>,
    pub description__n: Vec<String>,
    pub description__nic: Vec<String>,
    pub description__nie: Vec<String>,
    pub description__niew: Vec<String>,
    pub description__nisw: Vec<String>,
    pub expires: String,
    pub expires__gte: String,
    pub expires__lte: String,
    pub id: Vec<i32>,
    pub id__empty: bool,
    pub id__gt: Vec<i32>,
    pub id__gte: Vec<i32>,
    pub id__lt: Vec<i32>,
    pub id__lte: Vec<i32>,
    pub id__n: Vec<i32>,
    pub key: Vec<String>,
    pub key__empty: bool,
    pub key__ic: Vec<String>,
    pub key__ie: Vec<String>,
    pub key__iew: Vec<String>,
    pub key__isw: Vec<String>,
    pub key__n: Vec<String>,
    pub key__nic: Vec<String>,
    pub key__nie: Vec<String>,
    pub key__niew: Vec<String>,
    pub key__nisw: Vec<String>,
    pub limit: i64,
    pub offset: i64,
    pub ordering: String,
    pub q: String,
    pub user: Vec<String>,
    pub user__n: Vec<String>,
    pub user_id: Vec<i64>,
    pub user_id__n: Vec<i64>,
    pub write_enabled: bool,
}

pub struct UsersTokensBulkUpdateQuery {}

pub struct UsersTokensCreateQuery {}

pub struct UsersTokensBulkPartialUpdateQuery {}

pub struct UsersTokensBulkDestroyQuery {}

pub struct ExtrasBookmarksListQuery {
    pub created: String,
    pub id: Vec<i32>,
    pub id__empty: bool,
    pub id__gt: Vec<i32>,
    pub id__gte: Vec<i32>,
    pub id__lt: Vec<i32>,
    pub id__lte: Vec<i32>,
    pub id__n: Vec<i32>,
    pub limit: i64,
    pub object_id: Vec<i32>,
    pub object_id__empty: bool,
    pub object_id__gt: Vec<i32>,
    pub object_id__gte: Vec<i32>,
    pub object_id__lt: Vec<i32>,
    pub object_id__lte: Vec<i32>,
    pub object_id__n: Vec<i32>,
    pub object_typ: String,
    pub object_typ__n: String,
    pub object_typ_id: Vec<i32>,
    pub object_typ_id__empty: Vec<i32>,
    pub object_typ_id__gt: Vec<i32>,
    pub object_typ_id__gte: Vec<i32>,
    pub object_typ_id__lt: Vec<i32>,
    pub object_typ_id__lte: Vec<i32>,
    pub object_typ_id__n: Vec<i32>,
    pub offset: i64,
    pub ordering: String,
    pub user: Vec<String>,
    pub user__n: Vec<String>,
    pub user_id: Vec<i64>,
    pub user_id__n: Vec<i64>,
}

pub struct ExtrasBookmarksBulkUpdateQuery {}

pub struct ExtrasBookmarksCreateQuery {}

pub struct ExtrasBookmarksBulkPartialUpdateQuery {}

pub struct ExtrasBookmarksBulkDestroyQuery {}

pub struct DcimModuleBayTemplatesListQuery {
    pub created: Vec<String>,
    pub created__empty: Vec<String>,
    pub created__gt: Vec<String>,
    pub created__gte: Vec<String>,
    pub created__lt: Vec<String>,
    pub created__lte: Vec<String>,
    pub created__n: Vec<String>,
    pub created_by_request: String,
    pub devicetyp_id: Vec<i64>,
    pub devicetyp_id__n: Vec<i64>,
    pub id: Vec<i32>,
    pub id__empty: bool,
    pub id__gt: Vec<i32>,
    pub id__gte: Vec<i32>,
    pub id__lt: Vec<i32>,
    pub id__lte: Vec<i32>,
    pub id__n: Vec<i32>,
    pub last_updated: Vec<String>,
    pub last_updated__empty: Vec<String>,
    pub last_updated__gt: Vec<String>,
    pub last_updated__gte: Vec<String>,
    pub last_updated__lt: Vec<String>,
    pub last_updated__lte: Vec<String>,
    pub last_updated__n: Vec<String>,
    pub limit: i64,
    pub modified_by_request: String,
    pub name: Vec<String>,
    pub name__empty: bool,
    pub name__ic: Vec<String>,
    pub name__ie: Vec<String>,
    pub name__iew: Vec<String>,
    pub name__isw: Vec<String>,
    pub name__n: Vec<String>,
    pub name__nic: Vec<String>,
    pub name__nie: Vec<String>,
    pub name__niew: Vec<String>,
    pub name__nisw: Vec<String>,
    pub offset: i64,
    pub ordering: String,
    pub q: String,
    pub updated_by_request: String,
}

pub struct DcimModuleBayTemplatesBulkUpdateQuery {}

pub struct DcimModuleBayTemplatesCreateQuery {}

pub struct DcimModuleBayTemplatesBulkPartialUpdateQuery {}

pub struct DcimModuleBayTemplatesBulkDestroyQuery {}

pub struct ExtrasConfigTemplatesRenderCreateQuery {
    pub format: String,
}

pub struct IpamIpRangesBulkUpdateQuery {}

pub struct IpamIpRangesCreateQuery {}

pub struct IpamIpRangesBulkPartialUpdateQuery {}

pub struct IpamIpRangesBulkDestroyQuery {}

pub struct DcimInventoryItemTemplatesListQuery {
    pub component_id: Vec<i32>,
    pub component_id__empty: Vec<i32>,
    pub component_id__gt: Vec<i32>,
    pub component_id__gte: Vec<i32>,
    pub component_id__lt: Vec<i32>,
    pub component_id__lte: Vec<i32>,
    pub component_id__n: Vec<i32>,
    pub component_typ: String,
    pub component_typ__n: String,
    pub created: Vec<String>,
    pub created__empty: Vec<String>,
    pub created__gt: Vec<String>,
    pub created__gte: Vec<String>,
    pub created__lt: Vec<String>,
    pub created__lte: Vec<String>,
    pub created__n: Vec<String>,
    pub created_by_request: String,
    pub devicetyp_id: Vec<i64>,
    pub devicetyp_id__n: Vec<i64>,
    pub id: Vec<i32>,
    pub id__empty: bool,
    pub id__gt: Vec<i32>,
    pub id__gte: Vec<i32>,
    pub id__lt: Vec<i32>,
    pub id__lte: Vec<i32>,
    pub id__n: Vec<i32>,
    pub label: Vec<String>,
    pub label__empty: bool,
    pub label__ic: Vec<String>,
    pub label__ie: Vec<String>,
    pub label__iew: Vec<String>,
    pub label__isw: Vec<String>,
    pub label__n: Vec<String>,
    pub label__nic: Vec<String>,
    pub label__nie: Vec<String>,
    pub label__niew: Vec<String>,
    pub label__nisw: Vec<String>,
    pub last_updated: Vec<String>,
    pub last_updated__empty: Vec<String>,
    pub last_updated__gt: Vec<String>,
    pub last_updated__gte: Vec<String>,
    pub last_updated__lt: Vec<String>,
    pub last_updated__lte: Vec<String>,
    pub last_updated__n: Vec<String>,
    pub limit: i64,
    pub manufacturer: Vec<String>,
    pub manufacturer__n: Vec<String>,
    pub manufacturer_id: Vec<i64>,
    pub manufacturer_id__n: Vec<i64>,
    pub modified_by_request: String,
    pub name: Vec<String>,
    pub name__empty: bool,
    pub name__ic: Vec<String>,
    pub name__ie: Vec<String>,
    pub name__iew: Vec<String>,
    pub name__isw: Vec<String>,
    pub name__n: Vec<String>,
    pub name__nic: Vec<String>,
    pub name__nie: Vec<String>,
    pub name__niew: Vec<String>,
    pub name__nisw: Vec<String>,
    pub offset: i64,
    pub ordering: String,
    pub parent_id: Vec<i64>,
    pub parent_id__n: Vec<i64>,
    pub part_id: Vec<String>,
    pub part_id__empty: bool,
    pub part_id__ic: Vec<String>,
    pub part_id__ie: Vec<String>,
    pub part_id__iew: Vec<String>,
    pub part_id__isw: Vec<String>,
    pub part_id__n: Vec<String>,
    pub part_id__nic: Vec<String>,
    pub part_id__nie: Vec<String>,
    pub part_id__niew: Vec<String>,
    pub part_id__nisw: Vec<String>,
    pub q: String,
    pub role: Vec<String>,
    pub role__n: Vec<String>,
    pub role_id: Vec<i64>,
    pub role_id__n: Vec<i64>,
    pub updated_by_request: String,
}

pub struct DcimInventoryItemTemplatesBulkUpdateQuery {}

pub struct DcimInventoryItemTemplatesCreateQuery {}

pub struct DcimInventoryItemTemplatesBulkPartialUpdateQuery {}

pub struct DcimInventoryItemTemplatesBulkDestroyQuery {}

pub struct DcimFrontPortsPathsRetrieveQuery {}

pub struct DcimLocationsListQuery {
    pub contact: Vec<i64>,
    pub contact__n: Vec<i64>,
    pub contact_group: Vec<i64>,
    pub contact_group__n: Vec<i64>,
    pub contact_role: Vec<i64>,
    pub contact_role__n: Vec<i64>,
    pub created: Vec<String>,
    pub created__empty: Vec<String>,
    pub created__gt: Vec<String>,
    pub created__gte: Vec<String>,
    pub created__lt: Vec<String>,
    pub created__lte: Vec<String>,
    pub created__n: Vec<String>,
    pub created_by_request: String,
    pub description: Vec<String>,
    pub description__empty: bool,
    pub description__ic: Vec<String>,
    pub description__ie: Vec<String>,
    pub description__iew: Vec<String>,
    pub description__isw: Vec<String>,
    pub description__n: Vec<String>,
    pub description__nic: Vec<String>,
    pub description__nie: Vec<String>,
    pub description__niew: Vec<String>,
    pub description__nisw: Vec<String>,
    pub id: Vec<i32>,
    pub id__empty: bool,
    pub id__gt: Vec<i32>,
    pub id__gte: Vec<i32>,
    pub id__lt: Vec<i32>,
    pub id__lte: Vec<i32>,
    pub id__n: Vec<i32>,
    pub last_updated: Vec<String>,
    pub last_updated__empty: Vec<String>,
    pub last_updated__gt: Vec<String>,
    pub last_updated__gte: Vec<String>,
    pub last_updated__lt: Vec<String>,
    pub last_updated__lte: Vec<String>,
    pub last_updated__n: Vec<String>,
    pub limit: i64,
    pub modified_by_request: String,
    pub name: Vec<String>,
    pub name__empty: bool,
    pub name__ic: Vec<String>,
    pub name__ie: Vec<String>,
    pub name__iew: Vec<String>,
    pub name__isw: Vec<String>,
    pub name__n: Vec<String>,
    pub name__nic: Vec<String>,
    pub name__nie: Vec<String>,
    pub name__niew: Vec<String>,
    pub name__nisw: Vec<String>,
    pub offset: i64,
    pub ordering: String,
    pub parent: Vec<i64>,
    pub parent__n: Vec<i64>,
    pub parent_id: Vec<i64>,
    pub parent_id__n: Vec<i64>,
    pub q: String,
    pub region: Vec<i64>,
    pub region__n: Vec<i64>,
    pub region_id: Vec<i64>,
    pub region_id__n: Vec<i64>,
    pub site: Vec<String>,
    pub site__n: Vec<String>,
    pub site_group: Vec<i64>,
    pub site_group__n: Vec<i64>,
    pub site_group_id: Vec<i64>,
    pub site_group_id__n: Vec<i64>,
    pub site_id: Vec<i64>,
    pub site_id__n: Vec<i64>,
    pub slug: Vec<String>,
    pub slug__empty: bool,
    pub slug__ic: Vec<String>,
    pub slug__ie: Vec<String>,
    pub slug__iew: Vec<String>,
    pub slug__isw: Vec<String>,
    pub slug__n: Vec<String>,
    pub slug__nic: Vec<String>,
    pub slug__nie: Vec<String>,
    pub slug__niew: Vec<String>,
    pub slug__nisw: Vec<String>,
    pub status: Vec<String>,
    pub status__n: Vec<String>,
    pub tag: Vec<String>,
    pub tag__n: Vec<String>,
    pub tenant: Vec<String>,
    pub tenant__n: Vec<String>,
    pub tenant_group: Vec<i64>,
    pub tenant_group__n: Vec<i64>,
    pub tenant_group_id: Vec<i64>,
    pub tenant_group_id__n: Vec<i64>,
    pub tenant_id: Vec<i64>,
    pub tenant_id__n: Vec<i64>,
    pub updated_by_request: String,
}

pub struct DcimLocationsBulkUpdateQuery {}

pub struct DcimLocationsCreateQuery {}

pub struct DcimLocationsBulkPartialUpdateQuery {}

pub struct DcimLocationsBulkDestroyQuery {}

pub struct DcimSiteGroupsListQuery {
    pub contact: Vec<i64>,
    pub contact__n: Vec<i64>,
    pub contact_group: Vec<i64>,
    pub contact_group__n: Vec<i64>,
    pub contact_role: Vec<i64>,
    pub contact_role__n: Vec<i64>,
    pub created: Vec<String>,
    pub created__empty: Vec<String>,
    pub created__gt: Vec<String>,
    pub created__gte: Vec<String>,
    pub created__lt: Vec<String>,
    pub created__lte: Vec<String>,
    pub created__n: Vec<String>,
    pub created_by_request: String,
    pub description: Vec<String>,
    pub description__empty: bool,
    pub description__ic: Vec<String>,
    pub description__ie: Vec<String>,
    pub description__iew: Vec<String>,
    pub description__isw: Vec<String>,
    pub description__n: Vec<String>,
    pub description__nic: Vec<String>,
    pub description__nie: Vec<String>,
    pub description__niew: Vec<String>,
    pub description__nisw: Vec<String>,
    pub id: Vec<i32>,
    pub id__empty: bool,
    pub id__gt: Vec<i32>,
    pub id__gte: Vec<i32>,
    pub id__lt: Vec<i32>,
    pub id__lte: Vec<i32>,
    pub id__n: Vec<i32>,
    pub last_updated: Vec<String>,
    pub last_updated__empty: Vec<String>,
    pub last_updated__gt: Vec<String>,
    pub last_updated__gte: Vec<String>,
    pub last_updated__lt: Vec<String>,
    pub last_updated__lte: Vec<String>,
    pub last_updated__n: Vec<String>,
    pub limit: i64,
    pub modified_by_request: String,
    pub name: Vec<String>,
    pub name__empty: bool,
    pub name__ic: Vec<String>,
    pub name__ie: Vec<String>,
    pub name__iew: Vec<String>,
    pub name__isw: Vec<String>,
    pub name__n: Vec<String>,
    pub name__nic: Vec<String>,
    pub name__nie: Vec<String>,
    pub name__niew: Vec<String>,
    pub name__nisw: Vec<String>,
    pub offset: i64,
    pub ordering: String,
    pub parent: Vec<String>,
    pub parent__n: Vec<String>,
    pub parent_id: Vec<i64>,
    pub parent_id__n: Vec<i64>,
    pub q: String,
    pub slug: Vec<String>,
    pub slug__empty: bool,
    pub slug__ic: Vec<String>,
    pub slug__ie: Vec<String>,
    pub slug__iew: Vec<String>,
    pub slug__isw: Vec<String>,
    pub slug__n: Vec<String>,
    pub slug__nic: Vec<String>,
    pub slug__nie: Vec<String>,
    pub slug__niew: Vec<String>,
    pub slug__nisw: Vec<String>,
    pub tag: Vec<String>,
    pub tag__n: Vec<String>,
    pub updated_by_request: String,
}

pub struct DcimSiteGroupsBulkUpdateQuery {}

pub struct DcimSiteGroupsCreateQuery {}

pub struct DcimSiteGroupsBulkPartialUpdateQuery {}

pub struct DcimSiteGroupsBulkDestroyQuery {}

pub struct CoreDataFilesListQuery {
    pub created: Vec<String>,
    pub created__empty: Vec<String>,
    pub created__gt: Vec<String>,
    pub created__gte: Vec<String>,
    pub created__lt: Vec<String>,
    pub created__lte: Vec<String>,
    pub created__n: Vec<String>,
    pub created_by_request: String,
    pub hash: Vec<String>,
    pub hash__empty: bool,
    pub hash__ic: Vec<String>,
    pub hash__ie: Vec<String>,
    pub hash__iew: Vec<String>,
    pub hash__isw: Vec<String>,
    pub hash__n: Vec<String>,
    pub hash__nic: Vec<String>,
    pub hash__nie: Vec<String>,
    pub hash__niew: Vec<String>,
    pub hash__nisw: Vec<String>,
    pub id: Vec<i32>,
    pub id__empty: bool,
    pub id__gt: Vec<i32>,
    pub id__gte: Vec<i32>,
    pub id__lt: Vec<i32>,
    pub id__lte: Vec<i32>,
    pub id__n: Vec<i32>,
    pub last_updated: Vec<String>,
    pub last_updated__empty: Vec<String>,
    pub last_updated__gt: Vec<String>,
    pub last_updated__gte: Vec<String>,
    pub last_updated__lt: Vec<String>,
    pub last_updated__lte: Vec<String>,
    pub last_updated__n: Vec<String>,
    pub limit: i64,
    pub modified_by_request: String,
    pub offset: i64,
    pub ordering: String,
    pub path: Vec<String>,
    pub path__empty: bool,
    pub path__ic: Vec<String>,
    pub path__ie: Vec<String>,
    pub path__iew: Vec<String>,
    pub path__isw: Vec<String>,
    pub path__n: Vec<String>,
    pub path__nic: Vec<String>,
    pub path__nie: Vec<String>,
    pub path__niew: Vec<String>,
    pub path__nisw: Vec<String>,
    pub q: String,
    pub size: Vec<i32>,
    pub size__empty: bool,
    pub size__gt: Vec<i32>,
    pub size__gte: Vec<i32>,
    pub size__lt: Vec<i32>,
    pub size__lte: Vec<i32>,
    pub size__n: Vec<i32>,
    pub source: Vec<String>,
    pub source__n: Vec<String>,
    pub source_id: Vec<i64>,
    pub source_id__n: Vec<i64>,
    pub updated_by_request: String,
}

pub struct DcimDevicesRenderConfigCreateQuery {
    pub format: String,
}

pub struct IpamVlanGroupsAvailableVlansListQuery {}

pub struct IpamVlanGroupsAvailableVlansCreateQuery {}

pub struct ExtrasTagsListQuery {
    pub color: Vec<String>,
    pub color__empty: bool,
    pub color__ic: Vec<String>,
    pub color__ie: Vec<String>,
    pub color__iew: Vec<String>,
    pub color__isw: Vec<String>,
    pub color__n: Vec<String>,
    pub color__nic: Vec<String>,
    pub color__nie: Vec<String>,
    pub color__niew: Vec<String>,
    pub color__nisw: Vec<String>,
    pub content_typ: Vec<String>,
    pub content_typ_id: Vec<i32>,
    pub created: Vec<String>,
    pub created__empty: Vec<String>,
    pub created__gt: Vec<String>,
    pub created__gte: Vec<String>,
    pub created__lt: Vec<String>,
    pub created__lte: Vec<String>,
    pub created__n: Vec<String>,
    pub created_by_request: String,
    pub description: Vec<String>,
    pub description__empty: bool,
    pub description__ic: Vec<String>,
    pub description__ie: Vec<String>,
    pub description__iew: Vec<String>,
    pub description__isw: Vec<String>,
    pub description__n: Vec<String>,
    pub description__nic: Vec<String>,
    pub description__nie: Vec<String>,
    pub description__niew: Vec<String>,
    pub description__nisw: Vec<String>,
    pub for_object_typ_id: Vec<i32>,
    pub id: Vec<i32>,
    pub id__empty: bool,
    pub id__gt: Vec<i32>,
    pub id__gte: Vec<i32>,
    pub id__lt: Vec<i32>,
    pub id__lte: Vec<i32>,
    pub id__n: Vec<i32>,
    pub last_updated: Vec<String>,
    pub last_updated__empty: Vec<String>,
    pub last_updated__gt: Vec<String>,
    pub last_updated__gte: Vec<String>,
    pub last_updated__lt: Vec<String>,
    pub last_updated__lte: Vec<String>,
    pub last_updated__n: Vec<String>,
    pub limit: i64,
    pub modified_by_request: String,
    pub name: Vec<String>,
    pub name__empty: bool,
    pub name__ic: Vec<String>,
    pub name__ie: Vec<String>,
    pub name__iew: Vec<String>,
    pub name__isw: Vec<String>,
    pub name__n: Vec<String>,
    pub name__nic: Vec<String>,
    pub name__nie: Vec<String>,
    pub name__niew: Vec<String>,
    pub name__nisw: Vec<String>,
    pub object_typs: Vec<i64>,
    pub object_typs__n: Vec<i64>,
    pub offset: i64,
    pub ordering: String,
    pub q: String,
    pub slug: Vec<String>,
    pub slug__empty: bool,
    pub slug__ic: Vec<String>,
    pub slug__ie: Vec<String>,
    pub slug__iew: Vec<String>,
    pub slug__isw: Vec<String>,
    pub slug__n: Vec<String>,
    pub slug__nic: Vec<String>,
    pub slug__nie: Vec<String>,
    pub slug__niew: Vec<String>,
    pub slug__nisw: Vec<String>,
    pub updated_by_request: String,
}

pub struct ExtrasTagsBulkUpdateQuery {}

pub struct ExtrasTagsCreateQuery {}

pub struct ExtrasTagsBulkPartialUpdateQuery {}

pub struct ExtrasTagsBulkDestroyQuery {}

pub struct UsersTokensRetrieveQuery {}

pub struct UsersTokensUpdateQuery {}

pub struct UsersTokensPartialUpdateQuery {}

pub struct UsersTokensDestroyQuery {}

pub struct DcimRacksBulkUpdateQuery {}

pub struct DcimRacksCreateQuery {}

pub struct DcimRacksBulkPartialUpdateQuery {}

pub struct DcimRacksBulkDestroyQuery {}

pub struct ExtrasTagsRetrieveQuery {}

pub struct ExtrasTagsUpdateQuery {}

pub struct ExtrasTagsPartialUpdateQuery {}

pub struct ExtrasTagsDestroyQuery {}

pub struct ExtrasConfigTemplatesListQuery {
    pub data_file_id: Vec<i64>,
    pub data_file_id__n: Vec<i64>,
    pub data_source_id: Vec<i64>,
    pub data_source_id__n: Vec<i64>,
    pub data_synced: Vec<String>,
    pub data_synced__empty: bool,
    pub data_synced__gt: Vec<String>,
    pub data_synced__gte: Vec<String>,
    pub data_synced__lt: Vec<String>,
    pub data_synced__lte: Vec<String>,
    pub data_synced__n: Vec<String>,
    pub description: Vec<String>,
    pub description__empty: bool,
    pub description__ic: Vec<String>,
    pub description__ie: Vec<String>,
    pub description__iew: Vec<String>,
    pub description__isw: Vec<String>,
    pub description__n: Vec<String>,
    pub description__nic: Vec<String>,
    pub description__nie: Vec<String>,
    pub description__niew: Vec<String>,
    pub description__nisw: Vec<String>,
    pub id: Vec<i32>,
    pub id__empty: bool,
    pub id__gt: Vec<i32>,
    pub id__gte: Vec<i32>,
    pub id__lt: Vec<i32>,
    pub id__lte: Vec<i32>,
    pub id__n: Vec<i32>,
    pub limit: i64,
    pub name: Vec<String>,
    pub name__empty: bool,
    pub name__ic: Vec<String>,
    pub name__ie: Vec<String>,
    pub name__iew: Vec<String>,
    pub name__isw: Vec<String>,
    pub name__n: Vec<String>,
    pub name__nic: Vec<String>,
    pub name__nie: Vec<String>,
    pub name__niew: Vec<String>,
    pub name__nisw: Vec<String>,
    pub offset: i64,
    pub ordering: String,
    pub q: String,
    pub tag: Vec<String>,
    pub tag__n: Vec<String>,
}

pub struct ExtrasConfigTemplatesBulkUpdateQuery {}

pub struct ExtrasConfigTemplatesCreateQuery {}

pub struct ExtrasConfigTemplatesBulkPartialUpdateQuery {}

pub struct ExtrasConfigTemplatesBulkDestroyQuery {}

pub struct DcimConsoleServerPortsTraceRetrieveQuery {}

pub struct ExtrasConfigTemplatesRetrieveQuery {}

pub struct ExtrasConfigTemplatesUpdateQuery {}

pub struct ExtrasConfigTemplatesPartialUpdateQuery {}

pub struct ExtrasConfigTemplatesDestroyQuery {}

pub struct DcimDeviceBaysListQuery {
    pub created: Vec<String>,
    pub created__empty: Vec<String>,
    pub created__gt: Vec<String>,
    pub created__gte: Vec<String>,
    pub created__lt: Vec<String>,
    pub created__lte: Vec<String>,
    pub created__n: Vec<String>,
    pub created_by_request: String,
    pub description: Vec<String>,
    pub description__empty: bool,
    pub description__ic: Vec<String>,
    pub description__ie: Vec<String>,
    pub description__iew: Vec<String>,
    pub description__isw: Vec<String>,
    pub description__n: Vec<String>,
    pub description__nic: Vec<String>,
    pub description__nie: Vec<String>,
    pub description__niew: Vec<String>,
    pub description__nisw: Vec<String>,
    pub device: Vec<String>,
    pub device__n: Vec<String>,
    pub device_id: Vec<i64>,
    pub device_id__n: Vec<i64>,
    pub device_role: Vec<String>,
    pub device_role__n: Vec<String>,
    pub device_role_id: Vec<i64>,
    pub device_role_id__n: Vec<i64>,
    pub device_typ: Vec<String>,
    pub device_typ__n: Vec<String>,
    pub device_typ_id: Vec<i64>,
    pub device_typ_id__n: Vec<i64>,
    pub id: Vec<i32>,
    pub id__empty: bool,
    pub id__gt: Vec<i32>,
    pub id__gte: Vec<i32>,
    pub id__lt: Vec<i32>,
    pub id__lte: Vec<i32>,
    pub id__n: Vec<i32>,
    pub label: Vec<String>,
    pub label__empty: bool,
    pub label__ic: Vec<String>,
    pub label__ie: Vec<String>,
    pub label__iew: Vec<String>,
    pub label__isw: Vec<String>,
    pub label__n: Vec<String>,
    pub label__nic: Vec<String>,
    pub label__nie: Vec<String>,
    pub label__niew: Vec<String>,
    pub label__nisw: Vec<String>,
    pub last_updated: Vec<String>,
    pub last_updated__empty: Vec<String>,
    pub last_updated__gt: Vec<String>,
    pub last_updated__gte: Vec<String>,
    pub last_updated__lt: Vec<String>,
    pub last_updated__lte: Vec<String>,
    pub last_updated__n: Vec<String>,
    pub limit: i64,
    pub location: Vec<String>,
    pub location__n: Vec<String>,
    pub location_id: Vec<i64>,
    pub location_id__n: Vec<i64>,
    pub modified_by_request: String,
    pub name: Vec<String>,
    pub name__empty: bool,
    pub name__ic: Vec<String>,
    pub name__ie: Vec<String>,
    pub name__iew: Vec<String>,
    pub name__isw: Vec<String>,
    pub name__n: Vec<String>,
    pub name__nic: Vec<String>,
    pub name__nie: Vec<String>,
    pub name__niew: Vec<String>,
    pub name__nisw: Vec<String>,
    pub offset: i64,
    pub ordering: String,
    pub q: String,
    pub rack: Vec<String>,
    pub rack__n: Vec<String>,
    pub rack_id: Vec<i64>,
    pub rack_id__n: Vec<i64>,
    pub region: Vec<i64>,
    pub region__n: Vec<i64>,
    pub region_id: Vec<i64>,
    pub region_id__n: Vec<i64>,
    pub role: Vec<String>,
    pub role__n: Vec<String>,
    pub role_id: Vec<i64>,
    pub role_id__n: Vec<i64>,
    pub site: Vec<String>,
    pub site__n: Vec<String>,
    pub site_group: Vec<i64>,
    pub site_group__n: Vec<i64>,
    pub site_group_id: Vec<i64>,
    pub site_group_id__n: Vec<i64>,
    pub site_id: Vec<i64>,
    pub site_id__n: Vec<i64>,
    pub tag: Vec<String>,
    pub tag__n: Vec<String>,
    pub updated_by_request: String,
    pub virtual_chassis: Vec<String>,
    pub virtual_chassis__n: Vec<String>,
    pub virtual_chassis_id: Vec<i64>,
    pub virtual_chassis_id__n: Vec<i64>,
}

pub struct DcimDeviceBaysBulkUpdateQuery {}

pub struct DcimDeviceBaysCreateQuery {}

pub struct DcimDeviceBaysBulkPartialUpdateQuery {}

pub struct DcimDeviceBaysBulkDestroyQuery {}

pub struct DcimFrontPortTemplatesRetrieveQuery {}

pub struct DcimFrontPortTemplatesUpdateQuery {}

pub struct DcimFrontPortTemplatesPartialUpdateQuery {}

pub struct DcimFrontPortTemplatesDestroyQuery {}

pub struct DcimPowerPortTemplatesListQuery {
    pub allocated_draw: Vec<i32>,
    pub allocated_draw__empty: bool,
    pub allocated_draw__gt: Vec<i32>,
    pub allocated_draw__gte: Vec<i32>,
    pub allocated_draw__lt: Vec<i32>,
    pub allocated_draw__lte: Vec<i32>,
    pub allocated_draw__n: Vec<i32>,
    pub created: Vec<String>,
    pub created__empty: Vec<String>,
    pub created__gt: Vec<String>,
    pub created__gte: Vec<String>,
    pub created__lt: Vec<String>,
    pub created__lte: Vec<String>,
    pub created__n: Vec<String>,
    pub created_by_request: String,
    pub devicetyp_id: Vec<i64>,
    pub devicetyp_id__n: Vec<i64>,
    pub id: Vec<i32>,
    pub id__empty: bool,
    pub id__gt: Vec<i32>,
    pub id__gte: Vec<i32>,
    pub id__lt: Vec<i32>,
    pub id__lte: Vec<i32>,
    pub id__n: Vec<i32>,
    pub last_updated: Vec<String>,
    pub last_updated__empty: Vec<String>,
    pub last_updated__gt: Vec<String>,
    pub last_updated__gte: Vec<String>,
    pub last_updated__lt: Vec<String>,
    pub last_updated__lte: Vec<String>,
    pub last_updated__n: Vec<String>,
    pub limit: i64,
    pub maximum_draw: Vec<i32>,
    pub maximum_draw__empty: bool,
    pub maximum_draw__gt: Vec<i32>,
    pub maximum_draw__gte: Vec<i32>,
    pub maximum_draw__lt: Vec<i32>,
    pub maximum_draw__lte: Vec<i32>,
    pub maximum_draw__n: Vec<i32>,
    pub modified_by_request: String,
    pub moduletyp_id: Vec<i64>,
    pub moduletyp_id__n: Vec<i64>,
    pub name: Vec<String>,
    pub name__empty: bool,
    pub name__ic: Vec<String>,
    pub name__ie: Vec<String>,
    pub name__iew: Vec<String>,
    pub name__isw: Vec<String>,
    pub name__n: Vec<String>,
    pub name__nic: Vec<String>,
    pub name__nie: Vec<String>,
    pub name__niew: Vec<String>,
    pub name__nisw: Vec<String>,
    pub offset: i64,
    pub ordering: String,
    pub q: String,
    pub typ: String,
    pub typ__n: String,
    pub updated_by_request: String,
}

pub struct DcimPowerPortTemplatesBulkUpdateQuery {}

pub struct DcimPowerPortTemplatesCreateQuery {}

pub struct DcimPowerPortTemplatesBulkPartialUpdateQuery {}

pub struct DcimPowerPortTemplatesBulkDestroyQuery {}

pub struct DcimInterfacesTraceRetrieveQuery {}

pub struct ExtrasDashboardRetrieveQuery {}

pub struct ExtrasDashboardUpdateQuery {}

pub struct ExtrasDashboardPartialUpdateQuery {}

pub struct ExtrasDashboardDestroyQuery {}

pub struct DcimConsolePortsTraceRetrieveQuery {}

pub struct DcimPowerOutletTemplatesListQuery {
    pub created: Vec<String>,
    pub created__empty: Vec<String>,
    pub created__gt: Vec<String>,
    pub created__gte: Vec<String>,
    pub created__lt: Vec<String>,
    pub created__lte: Vec<String>,
    pub created__n: Vec<String>,
    pub created_by_request: String,
    pub devicetyp_id: Vec<i64>,
    pub devicetyp_id__n: Vec<i64>,
    pub feed_leg: Vec<String>,
    pub feed_leg__n: Vec<String>,
    pub id: Vec<i32>,
    pub id__empty: bool,
    pub id__gt: Vec<i32>,
    pub id__gte: Vec<i32>,
    pub id__lt: Vec<i32>,
    pub id__lte: Vec<i32>,
    pub id__n: Vec<i32>,
    pub last_updated: Vec<String>,
    pub last_updated__empty: Vec<String>,
    pub last_updated__gt: Vec<String>,
    pub last_updated__gte: Vec<String>,
    pub last_updated__lt: Vec<String>,
    pub last_updated__lte: Vec<String>,
    pub last_updated__n: Vec<String>,
    pub limit: i64,
    pub modified_by_request: String,
    pub moduletyp_id: Vec<i64>,
    pub moduletyp_id__n: Vec<i64>,
    pub name: Vec<String>,
    pub name__empty: bool,
    pub name__ic: Vec<String>,
    pub name__ie: Vec<String>,
    pub name__iew: Vec<String>,
    pub name__isw: Vec<String>,
    pub name__n: Vec<String>,
    pub name__nic: Vec<String>,
    pub name__nie: Vec<String>,
    pub name__niew: Vec<String>,
    pub name__nisw: Vec<String>,
    pub offset: i64,
    pub ordering: String,
    pub q: String,
    pub typ: String,
    pub typ__n: String,
    pub updated_by_request: String,
}

pub struct DcimPowerOutletTemplatesBulkUpdateQuery {}

pub struct DcimPowerOutletTemplatesCreateQuery {}

pub struct DcimPowerOutletTemplatesBulkPartialUpdateQuery {}

pub struct DcimPowerOutletTemplatesBulkDestroyQuery {}

pub struct TenancyContactsRetrieveQuery {}

pub struct TenancyContactsUpdateQuery {}

pub struct TenancyContactsPartialUpdateQuery {}

pub struct TenancyContactsDestroyQuery {}

pub struct UsersPermissionsRetrieveQuery {}

pub struct UsersPermissionsUpdateQuery {}

pub struct UsersPermissionsPartialUpdateQuery {}

pub struct UsersPermissionsDestroyQuery {}

pub struct DcimRackReservationsRetrieveQuery {}

pub struct DcimRackReservationsUpdateQuery {}

pub struct DcimRackReservationsPartialUpdateQuery {}

pub struct DcimRackReservationsDestroyQuery {}

pub struct SchemaRetrieveQuery {
    pub format: String,
}

pub struct CircuitsProvidersRetrieveQuery {}

pub struct CircuitsProvidersUpdateQuery {}

pub struct CircuitsProvidersPartialUpdateQuery {}

pub struct CircuitsProvidersDestroyQuery {}

pub struct TenancyContactGroupsListQuery {
    pub created: Vec<String>,
    pub created__empty: Vec<String>,
    pub created__gt: Vec<String>,
    pub created__gte: Vec<String>,
    pub created__lt: Vec<String>,
    pub created__lte: Vec<String>,
    pub created__n: Vec<String>,
    pub created_by_request: String,
    pub description: Vec<String>,
    pub description__empty: bool,
    pub description__ic: Vec<String>,
    pub description__ie: Vec<String>,
    pub description__iew: Vec<String>,
    pub description__isw: Vec<String>,
    pub description__n: Vec<String>,
    pub description__nic: Vec<String>,
    pub description__nie: Vec<String>,
    pub description__niew: Vec<String>,
    pub description__nisw: Vec<String>,
    pub id: Vec<i32>,
    pub id__empty: bool,
    pub id__gt: Vec<i32>,
    pub id__gte: Vec<i32>,
    pub id__lt: Vec<i32>,
    pub id__lte: Vec<i32>,
    pub id__n: Vec<i32>,
    pub last_updated: Vec<String>,
    pub last_updated__empty: Vec<String>,
    pub last_updated__gt: Vec<String>,
    pub last_updated__gte: Vec<String>,
    pub last_updated__lt: Vec<String>,
    pub last_updated__lte: Vec<String>,
    pub last_updated__n: Vec<String>,
    pub limit: i64,
    pub modified_by_request: String,
    pub name: Vec<String>,
    pub name__empty: bool,
    pub name__ic: Vec<String>,
    pub name__ie: Vec<String>,
    pub name__iew: Vec<String>,
    pub name__isw: Vec<String>,
    pub name__n: Vec<String>,
    pub name__nic: Vec<String>,
    pub name__nie: Vec<String>,
    pub name__niew: Vec<String>,
    pub name__nisw: Vec<String>,
    pub offset: i64,
    pub ordering: String,
    pub parent: Vec<String>,
    pub parent__n: Vec<String>,
    pub parent_id: Vec<i64>,
    pub parent_id__n: Vec<i64>,
    pub q: String,
    pub slug: Vec<String>,
    pub slug__empty: bool,
    pub slug__ic: Vec<String>,
    pub slug__ie: Vec<String>,
    pub slug__iew: Vec<String>,
    pub slug__isw: Vec<String>,
    pub slug__n: Vec<String>,
    pub slug__nic: Vec<String>,
    pub slug__nie: Vec<String>,
    pub slug__niew: Vec<String>,
    pub slug__nisw: Vec<String>,
    pub tag: Vec<String>,
    pub tag__n: Vec<String>,
    pub updated_by_request: String,
}

pub struct TenancyContactGroupsBulkUpdateQuery {}

pub struct TenancyContactGroupsCreateQuery {}

pub struct TenancyContactGroupsBulkPartialUpdateQuery {}

pub struct TenancyContactGroupsBulkDestroyQuery {}

pub struct CoreDataSourcesListQuery {
    pub created: Vec<String>,
    pub created__empty: Vec<String>,
    pub created__gt: Vec<String>,
    pub created__gte: Vec<String>,
    pub created__lt: Vec<String>,
    pub created__lte: Vec<String>,
    pub created__n: Vec<String>,
    pub created_by_request: String,
    pub enabled: bool,
    pub id: Vec<i32>,
    pub id__empty: bool,
    pub id__gt: Vec<i32>,
    pub id__gte: Vec<i32>,
    pub id__lt: Vec<i32>,
    pub id__lte: Vec<i32>,
    pub id__n: Vec<i32>,
    pub last_updated: Vec<String>,
    pub last_updated__empty: Vec<String>,
    pub last_updated__gt: Vec<String>,
    pub last_updated__gte: Vec<String>,
    pub last_updated__lt: Vec<String>,
    pub last_updated__lte: Vec<String>,
    pub last_updated__n: Vec<String>,
    pub limit: i64,
    pub modified_by_request: String,
    pub name: Vec<String>,
    pub name__empty: bool,
    pub name__ic: Vec<String>,
    pub name__ie: Vec<String>,
    pub name__iew: Vec<String>,
    pub name__isw: Vec<String>,
    pub name__n: Vec<String>,
    pub name__nic: Vec<String>,
    pub name__nie: Vec<String>,
    pub name__niew: Vec<String>,
    pub name__nisw: Vec<String>,
    pub offset: i64,
    pub ordering: String,
    pub q: String,
    pub status: Vec<String>,
    pub status__n: Vec<String>,
    pub tag: Vec<String>,
    pub tag__n: Vec<String>,
    pub typ: Vec<String>,
    pub typ__n: Vec<String>,
    pub updated_by_request: String,
}

pub struct CoreDataSourcesBulkUpdateQuery {}

pub struct CoreDataSourcesCreateQuery {}

pub struct CoreDataSourcesBulkPartialUpdateQuery {}

pub struct CoreDataSourcesBulkDestroyQuery {}

pub struct DcimFrontPortsRetrieveQuery {}

pub struct DcimFrontPortsUpdateQuery {}

pub struct DcimFrontPortsPartialUpdateQuery {}

pub struct DcimFrontPortsDestroyQuery {}

pub struct DcimRearPortTemplatesListQuery {
    pub color: Vec<String>,
    pub color__empty: bool,
    pub color__ic: Vec<String>,
    pub color__ie: Vec<String>,
    pub color__iew: Vec<String>,
    pub color__isw: Vec<String>,
    pub color__n: Vec<String>,
    pub color__nic: Vec<String>,
    pub color__nie: Vec<String>,
    pub color__niew: Vec<String>,
    pub color__nisw: Vec<String>,
    pub created: Vec<String>,
    pub created__empty: Vec<String>,
    pub created__gt: Vec<String>,
    pub created__gte: Vec<String>,
    pub created__lt: Vec<String>,
    pub created__lte: Vec<String>,
    pub created__n: Vec<String>,
    pub created_by_request: String,
    pub devicetyp_id: Vec<i64>,
    pub devicetyp_id__n: Vec<i64>,
    pub id: Vec<i32>,
    pub id__empty: bool,
    pub id__gt: Vec<i32>,
    pub id__gte: Vec<i32>,
    pub id__lt: Vec<i32>,
    pub id__lte: Vec<i32>,
    pub id__n: Vec<i32>,
    pub last_updated: Vec<String>,
    pub last_updated__empty: Vec<String>,
    pub last_updated__gt: Vec<String>,
    pub last_updated__gte: Vec<String>,
    pub last_updated__lt: Vec<String>,
    pub last_updated__lte: Vec<String>,
    pub last_updated__n: Vec<String>,
    pub limit: i64,
    pub modified_by_request: String,
    pub moduletyp_id: Vec<i64>,
    pub moduletyp_id__n: Vec<i64>,
    pub name: Vec<String>,
    pub name__empty: bool,
    pub name__ic: Vec<String>,
    pub name__ie: Vec<String>,
    pub name__iew: Vec<String>,
    pub name__isw: Vec<String>,
    pub name__n: Vec<String>,
    pub name__nic: Vec<String>,
    pub name__nie: Vec<String>,
    pub name__niew: Vec<String>,
    pub name__nisw: Vec<String>,
    pub offset: i64,
    pub ordering: String,
    pub positions: Vec<i32>,
    pub positions__empty: bool,
    pub positions__gt: Vec<i32>,
    pub positions__gte: Vec<i32>,
    pub positions__lt: Vec<i32>,
    pub positions__lte: Vec<i32>,
    pub positions__n: Vec<i32>,
    pub q: String,
    pub typ: Vec<String>,
    pub typ__n: Vec<String>,
    pub updated_by_request: String,
}

pub struct DcimRearPortTemplatesBulkUpdateQuery {}

pub struct DcimRearPortTemplatesCreateQuery {}

pub struct DcimRearPortTemplatesBulkPartialUpdateQuery {}

pub struct DcimRearPortTemplatesBulkDestroyQuery {}

pub struct IpamL2VpnsRetrieveQuery {}

pub struct IpamL2VpnsUpdateQuery {}

pub struct IpamL2VpnsPartialUpdateQuery {}

pub struct IpamL2VpnsDestroyQuery {}

pub struct WirelessWirelessLanGroupsRetrieveQuery {}

pub struct WirelessWirelessLanGroupsUpdateQuery {}

pub struct WirelessWirelessLanGroupsPartialUpdateQuery {}

pub struct WirelessWirelessLanGroupsDestroyQuery {}

pub struct DcimPlatformsRetrieveQuery {}

pub struct DcimPlatformsUpdateQuery {}

pub struct DcimPlatformsPartialUpdateQuery {}

pub struct DcimPlatformsDestroyQuery {}

pub struct CircuitsProviderNetworksListQuery {
    pub created: Vec<String>,
    pub created__empty: Vec<String>,
    pub created__gt: Vec<String>,
    pub created__gte: Vec<String>,
    pub created__lt: Vec<String>,
    pub created__lte: Vec<String>,
    pub created__n: Vec<String>,
    pub created_by_request: String,
    pub description: Vec<String>,
    pub description__empty: bool,
    pub description__ic: Vec<String>,
    pub description__ie: Vec<String>,
    pub description__iew: Vec<String>,
    pub description__isw: Vec<String>,
    pub description__n: Vec<String>,
    pub description__nic: Vec<String>,
    pub description__nie: Vec<String>,
    pub description__niew: Vec<String>,
    pub description__nisw: Vec<String>,
    pub id: Vec<i32>,
    pub id__empty: bool,
    pub id__gt: Vec<i32>,
    pub id__gte: Vec<i32>,
    pub id__lt: Vec<i32>,
    pub id__lte: Vec<i32>,
    pub id__n: Vec<i32>,
    pub last_updated: Vec<String>,
    pub last_updated__empty: Vec<String>,
    pub last_updated__gt: Vec<String>,
    pub last_updated__gte: Vec<String>,
    pub last_updated__lt: Vec<String>,
    pub last_updated__lte: Vec<String>,
    pub last_updated__n: Vec<String>,
    pub limit: i64,
    pub modified_by_request: String,
    pub name: Vec<String>,
    pub name__empty: bool,
    pub name__ic: Vec<String>,
    pub name__ie: Vec<String>,
    pub name__iew: Vec<String>,
    pub name__isw: Vec<String>,
    pub name__n: Vec<String>,
    pub name__nic: Vec<String>,
    pub name__nie: Vec<String>,
    pub name__niew: Vec<String>,
    pub name__nisw: Vec<String>,
    pub offset: i64,
    pub ordering: String,
    pub provider: Vec<String>,
    pub provider__n: Vec<String>,
    pub provider_id: Vec<i64>,
    pub provider_id__n: Vec<i64>,
    pub q: String,
    pub service_id: Vec<String>,
    pub service_id__empty: bool,
    pub service_id__ic: Vec<String>,
    pub service_id__ie: Vec<String>,
    pub service_id__iew: Vec<String>,
    pub service_id__isw: Vec<String>,
    pub service_id__n: Vec<String>,
    pub service_id__nic: Vec<String>,
    pub service_id__nie: Vec<String>,
    pub service_id__niew: Vec<String>,
    pub service_id__nisw: Vec<String>,
    pub tag: Vec<String>,
    pub tag__n: Vec<String>,
    pub updated_by_request: String,
}

pub struct CircuitsProviderNetworksBulkUpdateQuery {}

pub struct CircuitsProviderNetworksCreateQuery {}

pub struct CircuitsProviderNetworksBulkPartialUpdateQuery {}

pub struct CircuitsProviderNetworksBulkDestroyQuery {}

pub struct DcimPowerOutletTemplatesRetrieveQuery {}

pub struct DcimPowerOutletTemplatesUpdateQuery {}

pub struct DcimPowerOutletTemplatesPartialUpdateQuery {}

pub struct DcimPowerOutletTemplatesDestroyQuery {}

pub struct DcimPowerPanelsRetrieveQuery {}

pub struct DcimPowerPanelsUpdateQuery {}

pub struct DcimPowerPanelsPartialUpdateQuery {}

pub struct DcimPowerPanelsDestroyQuery {}

pub struct DcimRackReservationsListQuery {
    pub created: Vec<String>,
    pub created__empty: Vec<String>,
    pub created__gt: Vec<String>,
    pub created__gte: Vec<String>,
    pub created__lt: Vec<String>,
    pub created__lte: Vec<String>,
    pub created__n: Vec<String>,
    pub created_by_request: String,
    pub description: Vec<String>,
    pub description__empty: bool,
    pub description__ic: Vec<String>,
    pub description__ie: Vec<String>,
    pub description__iew: Vec<String>,
    pub description__isw: Vec<String>,
    pub description__n: Vec<String>,
    pub description__nic: Vec<String>,
    pub description__nie: Vec<String>,
    pub description__niew: Vec<String>,
    pub description__nisw: Vec<String>,
    pub id: Vec<i32>,
    pub id__empty: bool,
    pub id__gt: Vec<i32>,
    pub id__gte: Vec<i32>,
    pub id__lt: Vec<i32>,
    pub id__lte: Vec<i32>,
    pub id__n: Vec<i32>,
    pub last_updated: Vec<String>,
    pub last_updated__empty: Vec<String>,
    pub last_updated__gt: Vec<String>,
    pub last_updated__gte: Vec<String>,
    pub last_updated__lt: Vec<String>,
    pub last_updated__lte: Vec<String>,
    pub last_updated__n: Vec<String>,
    pub limit: i64,
    pub location: Vec<i64>,
    pub location__n: Vec<i64>,
    pub location_id: Vec<i64>,
    pub location_id__n: Vec<i64>,
    pub modified_by_request: String,
    pub offset: i64,
    pub ordering: String,
    pub q: String,
    pub rack_id: Vec<i64>,
    pub rack_id__n: Vec<i64>,
    pub region: Vec<i64>,
    pub region__n: Vec<i64>,
    pub region_id: Vec<i64>,
    pub region_id__n: Vec<i64>,
    pub site: Vec<String>,
    pub site__n: Vec<String>,
    pub site_group: Vec<i64>,
    pub site_group__n: Vec<i64>,
    pub site_group_id: Vec<i64>,
    pub site_group_id__n: Vec<i64>,
    pub site_id: Vec<i64>,
    pub site_id__n: Vec<i64>,
    pub tag: Vec<String>,
    pub tag__n: Vec<String>,
    pub tenant: Vec<String>,
    pub tenant__n: Vec<String>,
    pub tenant_group: Vec<i64>,
    pub tenant_group__n: Vec<i64>,
    pub tenant_group_id: Vec<i64>,
    pub tenant_group_id__n: Vec<i64>,
    pub tenant_id: Vec<i64>,
    pub tenant_id__n: Vec<i64>,
    pub updated_by_request: String,
    pub user: Vec<String>,
    pub user__n: Vec<String>,
    pub user_id: Vec<i64>,
    pub user_id__n: Vec<i64>,
}

pub struct DcimRackReservationsBulkUpdateQuery {}

pub struct DcimRackReservationsCreateQuery {}

pub struct DcimRackReservationsBulkPartialUpdateQuery {}

pub struct DcimRackReservationsBulkDestroyQuery {}

pub struct ExtrasContentTypesListQuery {
    pub app_label: String,
    pub id: i64,
    pub limit: i64,
    pub model: String,
    pub offset: i64,
    pub ordering: String,
    pub q: String,
}

pub struct DcimConnectedDeviceListQuery {
    pub peer_device: String,
    pub peer_interface: String,
}

pub struct ExtrasJournalEntriesRetrieveQuery {}

pub struct ExtrasJournalEntriesUpdateQuery {}

pub struct ExtrasJournalEntriesPartialUpdateQuery {}

pub struct ExtrasJournalEntriesDestroyQuery {}

pub struct ExtrasSavedFiltersRetrieveQuery {}

pub struct ExtrasSavedFiltersUpdateQuery {}

pub struct ExtrasSavedFiltersPartialUpdateQuery {}

pub struct ExtrasSavedFiltersDestroyQuery {}

pub struct CircuitsProviderAccountsListQuery {
    pub account: Vec<String>,
    pub account__empty: bool,
    pub account__ic: Vec<String>,
    pub account__ie: Vec<String>,
    pub account__iew: Vec<String>,
    pub account__isw: Vec<String>,
    pub account__n: Vec<String>,
    pub account__nic: Vec<String>,
    pub account__nie: Vec<String>,
    pub account__niew: Vec<String>,
    pub account__nisw: Vec<String>,
    pub created: Vec<String>,
    pub created__empty: Vec<String>,
    pub created__gt: Vec<String>,
    pub created__gte: Vec<String>,
    pub created__lt: Vec<String>,
    pub created__lte: Vec<String>,
    pub created__n: Vec<String>,
    pub created_by_request: String,
    pub description: Vec<String>,
    pub description__empty: bool,
    pub description__ic: Vec<String>,
    pub description__ie: Vec<String>,
    pub description__iew: Vec<String>,
    pub description__isw: Vec<String>,
    pub description__n: Vec<String>,
    pub description__nic: Vec<String>,
    pub description__nie: Vec<String>,
    pub description__niew: Vec<String>,
    pub description__nisw: Vec<String>,
    pub id: Vec<i32>,
    pub id__empty: bool,
    pub id__gt: Vec<i32>,
    pub id__gte: Vec<i32>,
    pub id__lt: Vec<i32>,
    pub id__lte: Vec<i32>,
    pub id__n: Vec<i32>,
    pub last_updated: Vec<String>,
    pub last_updated__empty: Vec<String>,
    pub last_updated__gt: Vec<String>,
    pub last_updated__gte: Vec<String>,
    pub last_updated__lt: Vec<String>,
    pub last_updated__lte: Vec<String>,
    pub last_updated__n: Vec<String>,
    pub limit: i64,
    pub modified_by_request: String,
    pub name: Vec<String>,
    pub name__empty: bool,
    pub name__ic: Vec<String>,
    pub name__ie: Vec<String>,
    pub name__iew: Vec<String>,
    pub name__isw: Vec<String>,
    pub name__n: Vec<String>,
    pub name__nic: Vec<String>,
    pub name__nie: Vec<String>,
    pub name__niew: Vec<String>,
    pub name__nisw: Vec<String>,
    pub offset: i64,
    pub ordering: String,
    pub provider: Vec<String>,
    pub provider__n: Vec<String>,
    pub provider_id: Vec<i64>,
    pub provider_id__n: Vec<i64>,
    pub q: String,
    pub tag: Vec<String>,
    pub tag__n: Vec<String>,
    pub updated_by_request: String,
}

pub struct CircuitsProviderAccountsBulkUpdateQuery {}

pub struct CircuitsProviderAccountsCreateQuery {}

pub struct CircuitsProviderAccountsBulkPartialUpdateQuery {}

pub struct CircuitsProviderAccountsBulkDestroyQuery {}

pub struct CircuitsCircuitsRetrieveQuery {}

pub struct CircuitsCircuitsUpdateQuery {}

pub struct CircuitsCircuitsPartialUpdateQuery {}

pub struct CircuitsCircuitsDestroyQuery {}

} // verus!
