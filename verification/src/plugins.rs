//! The GStreamer plugins and decoders the thumbnailer depends on, and how it
//! configures the decoders it meets.

use vstd::prelude::*;
use crate::error::ErrorKind;
use crate::text::{same_text, starts_with};

verus! {

/// The GStreamer plugins the thumbnailer needs, in the order in which they
/// are checked and reported.
pub open spec fn needed_plugin_names() -> Seq<Seq<char>> {
    seq![
        "coreelements"@,
        "playback"@,
        "videoconvertscale"@,
        "videofilter"@,
        "audioconvert"@,
        "audioresample"@,
        "autodetect"@,
    ]
}

/// The names of the GStreamer plugins the thumbnailer needs, as
/// `needed_plugin_names` lists them.
pub fn needed_plugins() -> (r: Vec<&'static str>)
    ensures
        r@.len() == needed_plugin_names().len(),
        forall|i: int| 0 <= i < r@.len() ==> #[trigger] r@[i]@ == needed_plugin_names()[i],
{
    proof {
        reveal_strlit("coreelements");
        reveal_strlit("playback");
        reveal_strlit("videoconvertscale");
        reveal_strlit("videofilter");
        reveal_strlit("audioconvert");
        reveal_strlit("audioresample");
        reveal_strlit("autodetect");
    }
    let mut r: Vec<&'static str> = Vec::new();
    r.push("coreelements");
    r.push("playback");
    r.push("videoconvertscale");
    r.push("videofilter");
    r.push("audioconvert");
    r.push("audioresample");
    r.push("autodetect");
    r
}

/// The names among `names` whose entry in `present` is false, in order.
pub open spec fn missing_names(names: Seq<Seq<char>>, present: Seq<bool>) -> Seq<Seq<char>>
    recommends
        names.len() == present.len(),
    decreases names.len(),
{
    if names.len() == 0 {
        seq![]
    } else {
        let rest = missing_names(names.drop_last(), present.drop_last());
        if present[names.len() - 1] {
            rest
        } else {
            rest.push(names.last())
        }
    }
}

/// `s` between double quotes.
pub open spec fn quoted(s: Seq<char>) -> Seq<char> {
    "\""@ + s + "\""@
}

/// The quoted items of `items`, separated by a comma and a space.
pub open spec fn quoted_list_body(items: Seq<Seq<char>>) -> Seq<char>
    decreases items.len(),
{
    if items.len() == 0 {
        seq![]
    } else if items.len() == 1 {
        quoted(items[0])
    } else {
        quoted_list_body(items.drop_last()) + ", "@ + quoted(items.last())
    }
}

/// A list of names as it is printed for debugging: `["a", "b"]`. (The names
/// here hold no character that such printing escapes.)
pub open spec fn debug_list(items: Seq<Seq<char>>) -> Seq<char> {
    "["@ + quoted_list_body(items) + "]"@
}

/// The message that reports the plugins missing from `present`.
pub open spec fn missing_plugins_message(present: Seq<bool>) -> Seq<char> {
    "Missing GStreamer plugins: "@ + debug_list(missing_names(needed_plugin_names(), present))
}

/// Whether any entry of `present` is false.
pub open spec fn any_missing(present: Seq<bool>) -> bool {
    exists|i: int| 0 <= i < present.len() && !present[i]
}

proof fn lemma_missing_empty(names: Seq<Seq<char>>, present: Seq<bool>)
    requires
        names.len() == present.len(),
    ensures
        (missing_names(names, present).len() == 0) == !any_missing(present),
    decreases names.len(),
{
    if names.len() > 0 {
        lemma_missing_empty(names.drop_last(), present.drop_last());
        if any_missing(present.drop_last()) {
            let i = choose|i: int| 0 <= i < present.drop_last().len() && !present.drop_last()[i];
            assert(!present[i]);
        }
        if any_missing(present) {
            let i = choose|i: int| 0 <= i < present.len() && !present[i];
            if i < present.len() - 1 {
                assert(!present.drop_last()[i]);
            }
        }
    }
}

/// Checks that every plugin the thumbnailer needs is installed.
/// `present[i]` tells whether the plugin `needed_plugin_names()[i]` was
/// found. On success nothing is missing; otherwise the error names the
/// missing plugins in order, as `missing_plugins_message` says.
pub fn check_plugins(present: &Vec<bool>) -> (r: core::result::Result<(), ErrorKind>)
    requires
        present@.len() == needed_plugin_names().len(),
    ensures
        r is Ok <==> !any_missing(present@),
        r matches Err(k) ==> k matches ErrorKind::Other(m) && m@ == missing_plugins_message(
            present@,
        ),
{
    let names = needed_plugins();
    proof {
        reveal_strlit("\"");
        reveal_strlit(", ");
        reveal_strlit("[");
        reveal_strlit("]");
        reveal_strlit("Missing GStreamer plugins: ");
    }
    let mut body = String::new();
    let mut count: usize = 0;
    let mut i: usize = 0;
    let ghost all = needed_plugin_names();
    assert(names@.len() == 7);
    while i < names.len()
        invariant
            names@.len() == all.len(),
            all == needed_plugin_names(),
            present@.len() == all.len(),
            forall|k: int| 0 <= k < names@.len() ==> #[trigger] names@[k]@ == all[k],
            i <= names@.len(),
            count == missing_names(all.take(i as int), present@.take(i as int)).len(),
            count <= i,
            body@ == quoted_list_body(missing_names(all.take(i as int), present@.take(i as int))),
        decreases names@.len() - i,
    {
        let ghost before = missing_names(all.take(i as int), present@.take(i as int));
        assert(all.take(i + 1).drop_last() =~= all.take(i as int));
        assert(present@.take(i + 1).drop_last() =~= present@.take(i as int));
        if !present[i] {
            let ghost after = before.push(all[i as int]);
            assert(missing_names(all.take(i + 1), present@.take(i + 1)) == after);
            assert(after.drop_last() =~= before);
            if count > 0 {
                body.append(", ");
            }
            body.append("\"");
            body.append(names[i]);
            body.append("\"");
            count = count + 1;
        }
        i = i + 1;
    }
    assert(all.take(7) =~= all);
    assert(present@.take(7) =~= present@);
    proof {
        lemma_missing_empty(all, present@);
    }
    if count == 0 {
        Ok(())
    } else {
        let mut message = String::from_str("Missing GStreamer plugins: ");
        message.append("[");
        message.append(body.as_str());
        message.append("]");
        Err(ErrorKind::Other(message))
    }
}

/// The kinds of an element factory that decide whether it is a hardware
/// video decoder.
#[derive(Clone, Copy, Debug, PartialEq, Eq)]
pub struct FactoryKinds {
    /// The factory handles video.
    pub video: bool,
    /// The factory makes decoders.
    pub decoder: bool,
    /// The factory makes elements that run on dedicated hardware.
    pub hardware: bool,
}

/// Whether a registry feature is a hardware video decoder and is to be
/// disabled: it is an element factory (`kinds` is present) of all three
/// kinds video, decoder and hardware.
pub fn is_hardware_video_decoder(kinds: Option<FactoryKinds>) -> (r: bool)
    ensures
        r == (kinds matches Some(k) && k.video && k.decoder && k.hardware),
{
    match kinds {
        Some(k) => k.video && k.decoder && k.hardware,
        None => false,
    }
}

/// How the number of worker threads of a decoder is limited to one.
#[derive(Clone, Copy, Debug, PartialEq, Eq)]
pub enum DecoderThreads {
    /// Set the signed integer property `max-threads` to 1, where the element
    /// has that property.
    MaxThreads,
    /// Set the unsigned integer property `n-threads` to 1.
    NThreads,
    /// Set the unsigned integer property `threads` to 1.
    Threads,
    /// Leave the element as it is.
    Unchanged,
}

/// The thread setting for a decoder made by the factory `name`: `avdec_*`
/// decoders get `max-threads`, `dav1ddec` gets `n-threads`, `vp8dec` and
/// `vp9dec` get `threads`, any other element is left alone.
pub open spec fn decoder_threads_spec(name: Seq<char>) -> DecoderThreads {
    if "avdec_"@.is_prefix_of(name) {
        DecoderThreads::MaxThreads
    } else if name == "dav1ddec"@ {
        DecoderThreads::NThreads
    } else if name == "vp8dec"@ || name == "vp9dec"@ {
        DecoderThreads::Threads
    } else {
        DecoderThreads::Unchanged
    }
}

/// How to limit the worker threads of an element made by the factory
/// `factory_name`, as `decoder_threads_spec` says, to reduce the memory a
/// decoder uses on machines with many cores.
pub fn decoder_threads(factory_name: &str) -> (r: DecoderThreads)
    ensures
        r == decoder_threads_spec(factory_name@),
{
    if starts_with(factory_name, "avdec_") {
        DecoderThreads::MaxThreads
    } else if same_text(factory_name, "dav1ddec") {
        DecoderThreads::NThreads
    } else if same_text(factory_name, "vp8dec") || same_text(factory_name, "vp9dec") {
        DecoderThreads::Threads
    } else {
        DecoderThreads::Unchanged
    }
}

} // verus!
