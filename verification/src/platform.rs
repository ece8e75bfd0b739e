//! Fixed platform facts: application directories, the Android context
//! and storage state, and the content-layout check.

use vstd::prelude::*;

verus! {

/// The fully qualified class name of the Android application context.
pub fn get_android_context() -> (r: String)
    ensures
        r@ == "android.app.Application"@,
{
    String::from_str("android.app.Application")
}

/// The state of the Android external storage; always mounted on the
/// reference device.
pub fn get_storage_state() -> (r: Result<String, String>)
    ensures
        r is Ok,
        r matches Ok(s) ==> s@ == "mounted"@,
{
    Ok(String::from_str("mounted"))
}

/// The Android application's external files directory.  Resolution of
/// the equivalent directory on other platforms needs the process
/// environment and lives with the platform glue.
pub fn get_mobile_app_dir() -> (r: String)
    ensures
        r@ == "/storage/emulated/0/Android/data/com.example.app/files"@,
{
    String::from_str("/storage/emulated/0/Android/data/com.example.app/files")
}

/// The Android application's cache directory.
pub fn get_mobile_cache_dir() -> (r: String)
    ensures
        r@ == "/data/data/com.example.app/cache"@,
{
    String::from_str("/data/data/com.example.app/cache")
}

/// The Android scratch directory stress runs may write under.
pub fn get_mobile_test_dir() -> (r: String)
    ensures
        r@ == "/data/local/tmp"@,
{
    String::from_str("/data/local/tmp")
}

/// Whether a screen layout is plausible after a rotation: both sides
/// positive and no larger than a 4K panel.
pub fn verify_content_layout(width: u32, height: u32) -> (r: bool)
    ensures
        r == (width > 0 && height > 0 && width <= 3840 && height <= 2160),
{
    width > 0 && height > 0 && width <= 3840 && height <= 2160
}

/// Given the ages in seconds of the entries in a cache directory,
/// returns the indices of the entries to evict: exactly those strictly
/// older than `max_age_secs`, in increasing order.
pub fn cleanup_old_cache(ages_secs: &Vec<u64>, max_age_secs: u64) -> (r: Vec<usize>)
    ensures
        forall|a: int, b: int| 0 <= a < b < r@.len() ==> r@[a] < r@[b],
        forall|a: int| 0 <= a < r@.len() ==> #[trigger] r@[a] < ages_secs@.len(),
        forall|a: int| 0 <= a < r@.len() ==> ages_secs@[#[trigger] r@[a] as int] > max_age_secs,
        forall|j: int|
            0 <= j < ages_secs@.len() && ages_secs@[j] > max_age_secs ==> r@.contains(j as usize),
{
    let mut r: Vec<usize> = Vec::new();
    let mut i: usize = 0;
    while i < ages_secs.len()
        invariant
            i <= ages_secs@.len(),
            forall|a: int, b: int| 0 <= a < b < r@.len() ==> r@[a] < r@[b],
            forall|a: int| 0 <= a < r@.len() ==> #[trigger] r@[a] < i,
            forall|a: int|
                0 <= a < r@.len() ==> ages_secs@[#[trigger] r@[a] as int] > max_age_secs,
            forall|j: int|
                0 <= j < i && ages_secs@[j] > max_age_secs ==> r@.contains(j as usize),
        decreases ages_secs@.len() - i,
    {
        if ages_secs[i] > max_age_secs {
            let ghost prev = r@;
            r.push(i);
            proof {
                assert forall|j: int|
                    0 <= j < i + 1 && ages_secs@[j] > max_age_secs implies r@.contains(
                    j as usize,
                ) by {
                    if j < i {
                        assert(prev.contains(j as usize));
                        let a = choose|a: int| 0 <= a < prev.len() && prev[a] == j as usize;
                        assert(r@[a] == j as usize);
                    } else {
                        assert(r@[r@.len() - 1] == i as usize);
                    }
                }
            }
        }
        i = i + 1;
    }
    r
}

} // verus!
