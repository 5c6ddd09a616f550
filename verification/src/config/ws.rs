//! How the web scenario of a URL source is to look.

use vstd::prelude::*;

verus! {

/// The web scenario's settings. The name is a template over `${HOST}`,
/// `${URL}` and `${URL_WITHOUT_PROTOCOL}`.
#[derive(PartialEq, Clone, Debug)]
pub struct WebScenarioConfig {
    pub key_starts_with: String,
    pub name_template: String,
    pub response_timeout: String,
    pub expect_status_code: String,
    pub attempts: u8,
    pub update_interval: String,
}

/// `WebScenarioConfig` as characters.
pub struct WebScenarioConfigView {
    pub key_starts_with: Seq<char>,
    pub name_template: Seq<char>,
    pub response_timeout: Seq<char>,
    pub expect_status_code: Seq<char>,
    pub attempts: u8,
    pub update_interval: Seq<char>,
}

impl DeepView for WebScenarioConfig {
    type V = WebScenarioConfigView;

    open spec fn deep_view(&self) -> WebScenarioConfigView {
        WebScenarioConfigView {
            key_starts_with: self.key_starts_with@,
            name_template: self.name_template@,
            response_timeout: self.response_timeout@,
            expect_status_code: self.expect_status_code@,
            attempts: self.attempts,
            update_interval: self.update_interval@,
        }
    }
}

} // verus!
