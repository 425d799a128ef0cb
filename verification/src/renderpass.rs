//! Render pass and subpass bookkeeping: an ordered list of attachment
//! descriptions and, per subpass, the attachment indices written as
//! color outputs.

use vstd::prelude::*;

use crate::handles::GlEnum;

verus! {

/// Index of an attachment within a render pass.
pub type AttachmentId = usize;

/// What to do with an attachment's contents when a pass begins.
#[derive(Clone, Copy, Debug, PartialEq, Eq, Structural)]
pub enum AttachmentLoadOp {
    Load,
    Clear,
    DontCare,
}

/// What to do with an attachment's contents when a pass ends.
#[derive(Clone, Copy, Debug, PartialEq, Eq, Structural)]
pub enum AttachmentStoreOp {
    Store,
    DontCare,
}

/// One attachment description: its native format (absent for an
/// unused attachment slot), sample count, and load/store operations.
#[derive(Clone, Copy, Debug, PartialEq, Eq, Structural)]
pub struct Attachment {
    pub format: Option<GlEnum>,
    pub samples: u8,
    pub load_op: AttachmentLoadOp,
    pub store_op: AttachmentStoreOp,
}

/// One subpass: the attachment indices it writes as color outputs.
#[derive(Clone, Debug)]
pub struct SubpassDesc {
    pub color_attachments: Vec<AttachmentId>,
}

impl SubpassDesc {
    /// Check if an attachment is used by this sub-pass: true iff the
    /// id appears in the subpass's color-attachment index list.
    /// Membership is a linear scan; subpass counts are small.
    pub fn is_using(&self, at_id: AttachmentId) -> (r: bool)
        ensures
            r == self.color_attachments@.contains(at_id),
    {
        let n = self.color_attachments.len();
        let mut i: usize = 0;
        while i < n
            invariant
                i <= n,
                n == self.color_attachments.len(),
                forall|k: int| 0 <= k < i ==> self.color_attachments@[k] != at_id,
            decreases n - i,
        {
            if self.color_attachments[i] == at_id {
                return true;
            }
            i = i + 1;
        }
        false
    }
}

/// A render pass: its ordered attachments and its ordered subpasses.
#[derive(Clone, Debug)]
pub struct RenderPass {
    pub attachments: Vec<Attachment>,
    pub subpasses: Vec<SubpassDesc>,
}

} // verus!
