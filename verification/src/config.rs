//! Fixed user-facing notices of the registry.

use vstd::prelude::*;

verus! {

/// Introduction shown when a redeem request carries no identifier.
pub const START_MESSAGE: &'static str = "
    Hey, To create a censored post, you can share any album, video, photo, gif, sticker, etc. The messages could then be forwarded to any chat for them to view
";

/// Notice sent when an identifier resolves to no stored media.
pub const NOT_FOUND_MESSAGE: &'static str = "Media is not found";

/// Notice sent when an inbound event carries no recognized media kind.
pub const NOT_SUPPORTED_TYPE: &'static str = "This media type is currently not supported";

} // verus!
