//! The remote design-service tools. The service client is a stand-in that
//! makes up design identifiers.
use vstd::prelude::*;

verus! {

/// Arguments of the create-design tool.
#[derive(Debug)]
pub struct CreateDesignIn {
    pub title: String,
    pub template_id: Option<String>,
    /// Width in pixels.
    pub width: Option<u32>,
    /// Height in pixels.
    pub height: Option<u32>,
}

/// Result of the create-design tool.
#[derive(Debug)]
pub struct CreateDesignOut {
    pub design_id: String,
    pub url: Option<String>,
}

/// Arguments of the export-design tool.
#[derive(Debug)]
pub struct ExportDesignIn {
    pub design_id: String,
    pub format: ExportFormat,
}

/// Export formats of the design service.
#[derive(Clone, Copy, Debug, PartialEq, Eq, Structural)]
pub enum ExportFormat {
    Pdf,
    Png,
    Jpg,
}

/// Result of the export-design tool.
#[derive(Debug)]
pub struct ExportDesignOut {
    pub path: String,
}

/// Relies on `uuid::Uuid::new_v4` and its `Display`, which writes the
/// hyphenated form: 36 characters. The value itself is random.
#[verifier::external_body]
fn random_uuid_text() -> (r: String)
    ensures
        r@.len() == 36,
{
    uuid::Uuid::new_v4().to_string()
}

/// Prefix of the identifiers that the stand-in client makes up.
pub open spec fn design_prefix() -> Seq<char> {
    "demo-"@
}

/// The design identifier made from the unique text `unique`.
pub fn design_id_for(unique: &str) -> (r: String)
    ensures
        r@ == design_prefix() + unique@,
{
    String::from_str("demo-").concat(unique)
}

/// Creates a design: the identifier is `demo-` followed by a fresh random
/// UUID, and no URL is known.
pub fn create_design(params: CreateDesignIn) -> (r: CreateDesignOut)
    ensures
        r.design_id@.len() == 41,
        r.design_id@.subrange(0, 5) == design_prefix(),
        r.url is None,
{
    let unique = random_uuid_text();
    let design_id = design_id_for(unique.as_str());
    proof {
        reveal_strlit("demo-");
        assert((design_prefix() + unique@).subrange(0, 5) =~= design_prefix());
    }
    CreateDesignOut { design_id, url: None }
}

} // verus!
