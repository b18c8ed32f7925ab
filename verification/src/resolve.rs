//! Content-addressed locations: the remote URL and the local path of an
//! asset are pure functions of its content hash.

use vstd::prelude::*;
use vstd::string::StringExecFns;

use crate::hash::{hex_of, Sha1Hash};

verus! {

/// The remote URL of an asset: the host, the two-character hash prefix,
/// then the full hash.
pub open spec fn asset_url_of(h: Seq<u8>) -> Seq<char> {
    "https://resources.download.minecraft.net/"@ + hex_of(h).subrange(0, 2) + "/"@ + hex_of(h)
}

/// The directory an asset is stored under: the object store root inside
/// the base directory, then the two-character hash prefix.
pub open spec fn object_dir_of(base: Seq<char>, h: Seq<u8>) -> Seq<char> {
    base + "/assets/objects/"@ + hex_of(h).subrange(0, 2)
}

/// The local path of an asset: its prefix directory, then the full hash
/// as the file name.
pub open spec fn local_path_of(base: Seq<char>, h: Seq<u8>) -> Seq<char> {
    object_dir_of(base, h) + "/"@ + hex_of(h)
}

/// The remote URL for a content hash.
pub fn create_asset_url(hash: &Sha1Hash) -> (r: String)
    ensures
        r@ == asset_url_of(hash@),
{
    let mut s = String::from_str("https://resources.download.minecraft.net/");
    let prefix = hash.hex_prefix();
    s.append(prefix.as_str());
    s.append("/");
    let hex = hash.human_readable();
    s.append(hex.as_str());
    proof {
        assert(s@ =~= asset_url_of(hash@));
    }
    s
}

/// Maps a content hash to its remote URL and its local path under the
/// given base directory.  Pure: no I/O, no failure mode.
pub fn resolve(hash: &Sha1Hash, base_dir: &str) -> (r: (String, String))
    ensures
        r.0@ == asset_url_of(hash@),
        r.1@ == local_path_of(base_dir@, hash@),
{
    let url = create_asset_url(hash);
    let mut path = base_dir.to_owned();
    path.append("/assets/objects/");
    let prefix = hash.hex_prefix();
    path.append(prefix.as_str());
    path.append("/");
    let hex = hash.human_readable();
    path.append(hex.as_str());
    proof {
        assert(path@ =~= local_path_of(base_dir@, hash@));
    }
    (url, path)
}

/// Resolution is deterministic: equal hashes always give equal URL and
/// path strings.
pub proof fn lemma_resolve_deterministic(base: Seq<char>, h1: Seq<u8>, h2: Seq<u8>)
    requires
        h1 == h2,
    ensures
        asset_url_of(h1) == asset_url_of(h2),
        local_path_of(base, h1) == local_path_of(base, h2),
{
}

/// The path splits into the prefix directory and the hex hash as file
/// name; the directory's last two characters are exactly the first two
/// characters of the hex hash, and the file name holds no separator.
pub proof fn lemma_path_parent_prefix(base: Seq<char>, h: Seq<u8>)
    requires
        h.len() == 20,
    ensures
        local_path_of(base, h) == object_dir_of(base, h) + "/"@ + hex_of(h),
        object_dir_of(base, h).len() >= 2,
        object_dir_of(base, h).subrange(
            object_dir_of(base, h).len() - 2,
            object_dir_of(base, h).len() as int,
        ) == hex_of(h).subrange(0, 2),
        forall|i: int| 0 <= i < hex_of(h).len() ==> #[trigger] hex_of(h)[i] != '/',
{
    let d = object_dir_of(base, h);
    assert(d.subrange(d.len() - 2, d.len() as int) =~= hex_of(h).subrange(0, 2));
}

} // verus!
