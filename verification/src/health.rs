//! The health report and the list of models.
use vstd::prelude::*;

verus! {

/// The answer to a health check: status, model names and uptime.
#[derive(Debug, Clone)]
pub struct HealthResponse {
    pub status: &'static str,
    pub stt_model: String,
    pub tts_model: String,
    pub uptime_secs: u64,
}

/// One model in the list of models.
#[derive(Debug, Clone)]
pub struct ModelEntry {
    pub id: String,
    pub object: &'static str,
}

/// The list of models the server offers.
#[derive(Debug, Clone)]
pub struct ModelList {
    pub object: &'static str,
    pub data: Vec<ModelEntry>,
}

/// The health report of a server running the given models for `uptime_secs` seconds.
pub fn health(stt_model: &String, tts_model: &String, uptime_secs: u64) -> (r: HealthResponse)
    ensures
        r.status@ == "ok"@,
        r.stt_model == *stt_model,
        r.tts_model == *tts_model,
        r.uptime_secs == uptime_secs,
{
    HealthResponse {
        status: "ok",
        stt_model: stt_model.clone(),
        tts_model: tts_model.clone(),
        uptime_secs,
    }
}

/// The list of models: the recogniser, then the synthesiser, each an object of kind `model`.
pub fn models(stt_model: &String, tts_model: &String) -> (r: ModelList)
    ensures
        r.object@ == "list"@,
        r.data@.len() == 2,
        r.data@[0].id == *stt_model,
        r.data@[1].id == *tts_model,
        r.data@[0].object@ == "model"@,
        r.data@[1].object@ == "model"@,
{
    let mut data: Vec<ModelEntry> = Vec::new();
    data.push(ModelEntry { id: stt_model.clone(), object: "model" });
    data.push(ModelEntry { id: tts_model.clone(), object: "model" });
    ModelList { object: "list", data }
}

} // verus!
