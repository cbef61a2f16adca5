//! Client configuration and its presence check: every required setting must
//! be there before any network activity is planned.

use vstd::prelude::*;
use vstd::string::StringExecFns;

verus! {

/// Configuration for the remote tracker client, validated present.
#[derive(Debug)]
pub struct AppConfig {
    /// Organization name, the first path segment of the service URL.
    pub org: String,
    /// Project name, the second path segment of the service URL.
    pub project: String,
    /// User identity the assignment filter selects on.
    pub user_email: String,
    /// Personal access token sent as the password half of a Basic credential.
    pub azure_devops_pat: String,
    /// Optional key for AI-assisted enrichment; unused by the pipeline.
    pub openai_api_key: Option<String>,
    /// Whether AI-assisted enrichment is configured.
    pub ai_enabled: bool,
}

/// Builds a configuration from the settings as found, or reports the first
/// missing required setting; the AI key is optional and only toggles the
/// enrichment flag.
pub fn config_from_values(
    org: Option<String>,
    project: Option<String>,
    user_email: Option<String>,
    azure_devops_pat: Option<String>,
    openai_api_key: Option<String>,
) -> (r: Result<AppConfig, String>)
    ensures
        org is None ==> (r matches Err(e) && e@ == "Missing AZURE_DEVOPS_ORG"@),
        org is Some && project is None ==> (r matches Err(e) && e@
            == "Missing AZURE_DEVOPS_PROJECT"@),
        org is Some && project is Some && user_email is None ==> (r matches Err(e) && e@
            == "Missing AZURE_DEVOPS_USER_EMAIL"@),
        org is Some && project is Some && user_email is Some && azure_devops_pat is None ==> (
        r matches Err(e) && e@ == "Missing AZURE_DEVOPS_PAT"@),
        org is Some && project is Some && user_email is Some && azure_devops_pat is Some ==> (
        r matches Ok(c) && c.org == org->0 && c.project == project->0 && c.user_email
            == user_email->0 && c.azure_devops_pat == azure_devops_pat->0 && c.openai_api_key
            == openai_api_key && c.ai_enabled == (openai_api_key is Some)),
{
    let org = match org {
        Some(v) => v,
        None => {
            return Err(String::from_str("Missing AZURE_DEVOPS_ORG"));
        },
    };
    let project = match project {
        Some(v) => v,
        None => {
            return Err(String::from_str("Missing AZURE_DEVOPS_PROJECT"));
        },
    };
    let user_email = match user_email {
        Some(v) => v,
        None => {
            return Err(String::from_str("Missing AZURE_DEVOPS_USER_EMAIL"));
        },
    };
    let azure_devops_pat = match azure_devops_pat {
        Some(v) => v,
        None => {
            return Err(String::from_str("Missing AZURE_DEVOPS_PAT"));
        },
    };
    let ai_enabled = openai_api_key.is_some();
    Ok(
        AppConfig {
            org,
            project,
            user_email,
            azure_devops_pat,
            openai_api_key,
            ai_enabled,
        },
    )
}

} // verus!
