//! URL sources: the host and URL pairs that a run works through, and the
//! providers that list them.

use crate::errors::OperationError;
use vstd::prelude::*;

pub mod file;
pub mod zabbix;

verus! {

/// One monitored endpoint: the host it is filed under and its URL.
#[derive(Debug)]
pub struct UrlSource {
    pub zabbix_host: String,
    pub url: String,
}

/// A URL source as characters.
pub struct UrlSourceView {
    pub zabbix_host: Seq<char>,
    pub url: Seq<char>,
}

impl DeepView for UrlSource {
    type V = UrlSourceView;

    open spec fn deep_view(&self) -> UrlSourceView {
        UrlSourceView { zabbix_host: self.zabbix_host@, url: self.url@ }
    }
}

/// Something that can list the URL sources of a run, in the order in which
/// they are to be worked through.
pub trait UrlSourceProvider {
    fn get_url_sources(&self) -> Result<Vec<UrlSource>, OperationError>;
}

} // verus!
