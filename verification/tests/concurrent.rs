use code_agent::llm::GeminiClient;
use std::sync::{Arc, Mutex};

#[test]
fn concurrent_draws_return_distinct_credentials() {
    // K concurrent draws against a pool of size K, serialized by the same
    // mutual-exclusion discipline the server uses: no credential comes back
    // twice before all others are exhausted.
    let keys: Vec<String> = (0..8).map(|i| format!("key{i}")).collect();
    let client = Arc::new(Mutex::new(GeminiClient::new(keys, None)));
    let rt = tokio::runtime::Builder::new_multi_thread()
        .worker_threads(4)
        .enable_all()
        .build()
        .unwrap();
    let drawn = rt.block_on(async {
        let mut handles = Vec::new();
        for _ in 0..8 {
            let shared = client.clone();
            handles.push(tokio::spawn(async move {
                let mut guard = shared.lock().unwrap();
                guard.get_next_api_key()
            }));
        }
        let mut out: Vec<String> = Vec::new();
        for h in handles {
            out.push(h.await.unwrap());
        }
        out
    });
    assert_eq!(drawn.len(), 8);
    for i in 0..drawn.len() {
        for j in (i + 1)..drawn.len() {
            assert_ne!(drawn[i], drawn[j]);
        }
    }
}
