//! Page research toolkit: network-capture analysis, HTTP transaction
//! records, request planning, tracker detection and page metadata.

pub mod browser;
pub mod html;
pub mod http;
pub mod httpreq;
pub mod session;
pub mod table;
pub mod text;
pub mod theorems;
pub mod trackers;
