use vstd::prelude::*;

verus! {

/// What happens to the content of an attachment at the start of a pass.
#[derive(Clone, Copy, Debug, PartialEq, Eq, Structural)]
pub enum AttachmentLoadOp {
    /// Preserve existing content in the attachment.
    Load,
    /// Clear the attachment.
    Clear,
    /// Attachment content will be undefined.
    DontCare,
}

/// What happens to the content of an attachment at the end of a pass.
#[derive(Clone, Copy, Debug, PartialEq, Eq, Structural)]
pub enum AttachmentStoreOp {
    /// Content written to the attachment will be preserved.
    Store,
    /// Attachment content will be undefined.
    DontCare,
}

} // verus!
