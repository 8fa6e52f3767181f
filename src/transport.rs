//! The transport session's description: the media pipeline that pulls H.264
//! over RTSP from the source and publishes it as MPEG-TS over SRT.
use vstd::prelude::*;
use vstd::string::StringExecFns;
use crate::config::SupervisorConfig;

verus! {

/// The pipeline description for the given endpoints.
pub open spec fn launch_text(source: Seq<char>, destination: Seq<char>) -> Seq<char> {
    "rtspsrc location="@ + source + " latency=100 ! rtph264depay ! mpegtsmux ! srtclientsink uri="@
        + destination
}

/// Builds the description from which the host creates each session.
pub fn launch_description(config: &SupervisorConfig) -> (r: String)
    ensures
        r@ == launch_text(config.source@, config.destination@),
{
    let mut r = "rtspsrc location=".to_owned();
    r.append(config.source.as_str());
    r.append(" latency=100 ! rtph264depay ! mpegtsmux ! srtclientsink uri=");
    r.append(config.destination.as_str());
    r
}

} // verus!
