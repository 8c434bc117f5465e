use std::path::Path;
use std::sync::Arc;
use std::sync::Mutex;
use std::time::Duration;

use quick_serve::plan_start_commands;
use quick_serve::runner_step;
use quick_serve::CommandMsg;
use quick_serve::DefaultChannel;
use quick_serve::Invocation;
use quick_serve::PathStat;
use quick_serve::Protocol;
use quick_serve::RunnerAction;
use quick_serve::RunnerState;
use quick_serve::ServerConfig;

// The launched daemon of one runner: present between a start and the next
// stop or terminate, exclusively owned by the runner task.
type DaemonSlot = Arc<Mutex<Option<ServerConfig>>>;

fn stat_of(path: &str) -> PathStat {
    let p = Path::new(path);
    PathStat {
        path: path.to_string(),
        exists: p.exists(),
        is_dir: p.is_dir(),
        readable: p.read_dir().is_ok(),
    }
}

fn spawn_runner(
    proto: Protocol,
    mut rcv: tokio::sync::broadcast::Receiver<CommandMsg>,
    slot: DaemonSlot,
) -> tokio::task::JoinHandle<()> {
    tokio::spawn(async move {
        let mut state = RunnerState::Idle;
        while state != RunnerState::Exited {
            let cmd = match rcv.recv().await {
                Ok(c) => c,
                Err(_) => break,
            };
            let stat = stat_of(&cmd.path);
            let (next, action) = runner_step(&proto, state, &cmd, &stat);
            state = next;
            match action {
                RunnerAction::Launch(cfg) => {
                    *slot.lock().unwrap() = Some(cfg);
                }
                RunnerAction::StopDaemon => {
                    *slot.lock().unwrap() = None;
                }
                _ => {}
            }
        }
        *slot.lock().unwrap() = None;
    })
}

// One GET against the running daemon, resolving the request path exactly as
// the HTTP request handler does: reject unsafe paths, then serve the bytes
// of an existing regular file under the served directory.
async fn http_get(slot: &DaemonSlot, port: u16, name: &str) -> Result<Vec<u8>, String> {
    let cfg = slot
        .lock()
        .unwrap()
        .clone()
        .ok_or_else(|| "connect failed: nothing is serving".to_string())?;
    if cfg.port != port {
        return Err("connect failed: nothing is serving on this port".to_string());
    }
    let file_path = quick_serve::validate_file_path(&cfg.served_path, name)
        .map_err(|e| format!("request rejected: {}", e.to_string()))?;
    let fp = Path::new(&file_path);
    if !fp.exists() {
        return Err("request failed: File not found".to_string());
    }
    if !fp.is_file() {
        return Err("request failed: Path is not a file".to_string());
    }
    tokio::fs::read(fp)
        .await
        .map_err(|e| format!("request failed: {}", e))
}

/// Starts the HTTP control plane for a fresh temp directory holding
/// `file_in` with 1000 random bytes, downloads `request_name`, stores the
/// result at `file_out`, and applies the same checks and messages as the
/// command-line harness.
fn run_http_e2e(
    port: u16,
    request_name: &str,
    file_in: &str,
    file_out: &str,
) -> Result<bool, String> {
    let rt = tokio::runtime::Builder::new_multi_thread()
        .enable_all()
        .build()
        .unwrap();
    rt.block_on(async {
        let _ = tokio::fs::remove_file(file_out).await;

        let dir = tempfile::tempdir().map_err(|e| format!("Failed to create temp directory: {}", e))?;
        let data: Vec<u8> = (0..1000).map(|_| rand::random::<u8>()).collect();
        tokio::fs::write(dir.path().join(file_in), &data)
            .await
            .map_err(|e| format!("Failed to write source file: {}", e))?;

        let channel: DefaultChannel<CommandMsg> = Default::default();
        let slot: DaemonSlot = Arc::new(Mutex::new(None));
        let _runner = spawn_runner(Protocol::Http, channel.sender.subscribe(), slot.clone());

        let inv = Invocation {
            bind_ip: "127.0.0.1".to_string(),
            serve_dir: dir.path().to_string_lossy().to_string(),
            http: Some(port),
            ftp: None,
            tftp: None,
            dhcp: None,
        };
        for cmd in plan_start_commands(&inv) {
            channel.sender.send(cmd).map_err(|e| format!("publish failed: {}", e))?;
        }
        tokio::time::sleep(Duration::from_millis(700)).await;

        if let Ok(body) = http_get(&slot, port, request_name).await {
            tokio::fs::write(file_out, &body)
                .await
                .map_err(|e| format!("Failed to store download: {}", e))?;
        }

        let file_in = dir.path().join(file_in);
        if !file_in.exists() {
            return Err(format!("Source file {} does not exist!", file_in.to_string_lossy()));
        }
        let file_out = Path::new(file_out);
        if !file_out.exists() {
            return Err(format!("Output file {} does not exist!", file_out.to_string_lossy()));
        }
        let downloaded = tokio::fs::read(file_out)
            .await
            .map_err(|e| format!("Failed to read metadata: {}", e))?;
        if downloaded.is_empty() {
            return Err(format!("File {} is empty!", file_out.to_string_lossy()));
        }
        let source = tokio::fs::read(&file_in)
            .await
            .map_err(|e| format!("Failed to compare files: {}", e))?;
        if source != downloaded {
            return Err("Content of files served and downloaded are not the same!".to_string());
        }
        Ok(true)
    })
}

#[test]
fn e2e() {
    let port = 8079u16;
    let file_in = "data.bin";
    let file_out = "/tmp/data-out-http.bin";

    let result = run_http_e2e(port, file_in, file_in, file_out);
    assert!(result.is_ok(), "Test failed: {:?}", result.err());
}

#[test]
fn test_http_traversal_stop_and_restart() {
    let port = 8078u16;
    let rt = tokio::runtime::Builder::new_multi_thread()
        .enable_all()
        .build()
        .unwrap();
    rt.block_on(async {
        let dir = tempfile::tempdir().expect("Failed to create temp directory");
        let data: Vec<u8> = (0..1000).map(|_| rand::random::<u8>()).collect();
        tokio::fs::write(dir.path().join("file.txt"), &data)
            .await
            .expect("Failed to write source file");

        let channel: DefaultChannel<CommandMsg> = Default::default();
        let slot: DaemonSlot = Arc::new(Mutex::new(None));
        let _runner = spawn_runner(Protocol::Http, channel.sender.subscribe(), slot.clone());

        let serve_dir = dir.path().to_string_lossy().to_string();
        let start = CommandMsg {
            intent: quick_serve::Intent::Start,
            port,
            protocol: Protocol::Http,
            bind_ip: "127.0.0.1".to_string(),
            path: serve_dir.clone(),
        };
        channel.sender.send(start.clone()).unwrap();
        tokio::time::sleep(Duration::from_millis(300)).await;

        // the served file comes back with matching bytes
        let body = http_get(&slot, port, "file.txt").await.expect("download should succeed");
        assert_eq!(body, data);

        // a traversal request is rejected and never yields file contents
        let evil = http_get(&slot, port, "../../etc/passwd").await;
        assert!(evil.is_err(), "traversal must not serve contents");
        assert!(evil.unwrap_err().contains("rejected"));

        // after a stop, nothing answers any more
        let stop = CommandMsg {
            intent: quick_serve::Intent::Stop,
            ..start.clone()
        };
        channel.sender.send(stop).unwrap();
        tokio::time::sleep(Duration::from_millis(300)).await;
        assert!(
            http_get(&slot, port, "file.txt").await.is_err(),
            "stopped server must not answer"
        );

        // a subsequent start serves again
        channel.sender.send(start).unwrap();
        tokio::time::sleep(Duration::from_millis(300)).await;
        let body = http_get(&slot, port, "file.txt").await.expect("restart should serve again");
        assert_eq!(body, data);
    });
}
