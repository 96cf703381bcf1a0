//! Names of the resources that permissions are granted on.

use vstd::prelude::*;
use vstd::string::*;

verus! {

/// The resource names known to the permission system.
pub struct ResourceNames {
    pub album: &'static str,
    pub song: &'static str,
    pub artist: &'static str,
    pub campaign: &'static str,
    pub kbr_event: &'static str,
    pub news: &'static str,
    pub user: &'static str,
}

/// The resource names in use.
pub fn resources() -> (r: ResourceNames)
    ensures
        r.album@ == "Album"@,
        r.song@ == "Song"@,
        r.artist@ == "Artist"@,
        r.campaign@ == "Campaign"@,
        r.kbr_event@ == "KBREvent"@,
        r.news@ == "News"@,
        r.user@ == "User"@,
{
    ResourceNames {
        album: "Album",
        song: "Song",
        artist: "Artist",
        campaign: "Campaign",
        kbr_event: "KBREvent",
        news: "News",
        user: "User",
    }
}

} // verus!
