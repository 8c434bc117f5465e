use std::io::Read;
use std::path::Path;
use std::sync::Arc;
use std::sync::Mutex;
use std::time::Duration;

use async_tftp::server::handlers::DirHandler;
use async_tftp::server::handlers::DirHandlerMode;
use async_tftp::server::Handler;

use quick_serve::plan_start_commands;
use quick_serve::runner_step;
use quick_serve::CommandMsg;
use quick_serve::DefaultChannel;
use quick_serve::Invocation;
use quick_serve::PathStat;
use quick_serve::Protocol;
use quick_serve::RunnerAction;
use quick_serve::RunnerState;
use quick_serve::ServerConfig;

// The launched daemon of one runner: present between a start and the next
// stop or terminate, exclusively owned by the runner task.
type DaemonSlot = Arc<Mutex<Option<ServerConfig>>>;

fn stat_of(path: &str) -> PathStat {
    let p = Path::new(path);
    PathStat {
        path: path.to_string(),
        exists: p.exists(),
        is_dir: p.is_dir(),
        readable: p.read_dir().is_ok(),
    }
}

fn spawn_runner(
    proto: Protocol,
    mut rcv: tokio::sync::broadcast::Receiver<CommandMsg>,
    slot: DaemonSlot,
) -> tokio::task::JoinHandle<()> {
    tokio::spawn(async move {
        let mut state = RunnerState::Idle;
        while state != RunnerState::Exited {
            let cmd = match rcv.recv().await {
                Ok(c) => c,
                Err(_) => break,
            };
            let stat = stat_of(&cmd.path);
            let (next, action) = runner_step(&proto, state, &cmd, &stat);
            state = next;
            match action {
                RunnerAction::Launch(cfg) => {
                    *slot.lock().unwrap() = Some(cfg);
                }
                RunnerAction::StopDaemon => {
                    *slot.lock().unwrap() = None;
                }
                _ => {}
            }
        }
        *slot.lock().unwrap() = None;
    })
}

// One read request against the running daemon, resolved by the TFTP
// server's own read-only directory handler, which refuses traversal and
// missing files.
async fn tftp_get(slot: &DaemonSlot, port: u16, name: &str) -> Result<Vec<u8>, String> {
    let cfg = slot
        .lock()
        .unwrap()
        .clone()
        .ok_or_else(|| "transfer failed: nothing is serving".to_string())?;
    if cfg.port != port {
        return Err("transfer failed: nothing is serving on this port".to_string());
    }
    let mut handler = DirHandler::new(&cfg.served_path, DirHandlerMode::ReadOnly)
        .map_err(|e| format!("transfer failed: {}", e))?;
    let client = "127.0.0.1:0".parse().unwrap();
    let (reader, _size) = handler
        .read_req_open(&client, Path::new(name))
        .await
        .map_err(|e| format!("transfer failed: {:?}", e))?;
    let mut file = reader.into_inner().await;
    let mut data = Vec::new();
    Read::read_to_end(&mut file, &mut data).map_err(|e| format!("transfer failed: {}", e))?;
    Ok(data)
}

/// Starts the TFTP control plane for a fresh temp directory holding
/// `file_in` with 1000 random bytes, downloads `request_name`, stores the
/// result at `file_out`, and applies the same checks and messages as the
/// command-line harness.
fn run_tftp_e2e(
    port: u16,
    request_name: &str,
    file_in: &str,
    file_out: &str,
) -> Result<bool, String> {
    let rt = tokio::runtime::Builder::new_multi_thread()
        .enable_all()
        .build()
        .unwrap();
    rt.block_on(async {
        let _ = tokio::fs::remove_file(file_out).await;

        let dir = tempfile::tempdir().map_err(|e| format!("Failed to create temp directory: {}", e))?;
        let data: Vec<u8> = (0..1000).map(|_| rand::random::<u8>()).collect();
        tokio::fs::write(dir.path().join(file_in), &data)
            .await
            .map_err(|e| format!("Failed to write source file: {}", e))?;

        let channel: DefaultChannel<CommandMsg> = Default::default();
        let slot: DaemonSlot = Arc::new(Mutex::new(None));
        let _runner = spawn_runner(Protocol::Tftp, channel.sender.subscribe(), slot.clone());

        let inv = Invocation {
            bind_ip: "127.0.0.1".to_string(),
            serve_dir: dir.path().to_string_lossy().to_string(),
            http: None,
            ftp: None,
            tftp: Some(port),
            dhcp: None,
        };
        for cmd in plan_start_commands(&inv) {
            channel.sender.send(cmd).map_err(|e| format!("publish failed: {}", e))?;
        }
        tokio::time::sleep(Duration::from_millis(700)).await;

        if let Ok(body) = tftp_get(&slot, port, request_name).await {
            tokio::fs::write(file_out, &body)
                .await
                .map_err(|e| format!("Failed to store download: {}", e))?;
        }

        let file_in = dir.path().join(file_in);
        if !file_in.exists() {
            return Err(format!("Source file {} does not exist!", file_in.to_string_lossy()));
        }
        let file_out = Path::new(file_out);
        if !file_out.exists() {
            return Err(format!("Output file {} does not exist!", file_out.to_string_lossy()));
        }
        let downloaded = tokio::fs::read(file_out)
            .await
            .map_err(|e| format!("Failed to read metadata: {}", e))?;
        if downloaded.is_empty() {
            return Err(format!("File {} is empty!", file_out.to_string_lossy()));
        }
        let source = tokio::fs::read(&file_in)
            .await
            .map_err(|e| format!("Failed to compare files: {}", e))?;
        if source != downloaded {
            return Err("Content of files served and downloaded are not the same!".to_string());
        }
        Ok(true)
    })
}

#[test]
fn test_tftp_file_download_success() {
    let port = 6966u16;
    let file_in = "data.bin";
    let file_out = "/tmp/data-out-tftp.bin";

    let result = run_tftp_e2e(port, file_in, file_in, file_out);
    assert!(result.is_ok(), "Test failed: {:?}", result.err());
}

#[test]
fn tftp_test_file_not_found() {
    let port = 6967u16;
    let file_in = "data.bin";
    let nonexistent_file = "nonexistent.bin";
    let file_out = "/tmp/data-out-tftp-404.bin";

    let result = run_tftp_e2e(port, nonexistent_file, file_in, file_out);
    assert!(result.is_err(), "Expected failure for non-existent file");
    let err_msg = result.unwrap_err();
    assert!(
        err_msg.contains("does not exist") || err_msg.contains("empty"),
        "Expected file not found error, got: {}",
        err_msg
    );
}

#[test]
fn tftp_test_path_is_directory() {
    let port = 6968u16;
    let file_in = "data.bin";
    let file_out = "/tmp/data-out-tftp-dir.bin";

    // an empty path names the served directory itself, which cannot be sent
    let result = run_tftp_e2e(port, "", file_in, file_out);
    assert!(result.is_err(), "Expected failure for directory path");
    let err_msg = result.unwrap_err();
    assert!(
        err_msg.contains("does not exist") || err_msg.contains("empty"),
        "Expected file not found or empty file error, got: {}",
        err_msg
    );
}

#[test]
fn tftp_test_path_traversal_blocked() {
    let port = 6969u16;
    let file_in = "data.bin";
    let file_out = "/tmp/data-out-tftp-traversal.bin";

    let result = run_tftp_e2e(port, "../../etc/passwd", file_in, file_out);
    assert!(result.is_err(), "Expected failure for path traversal attempt");
    let err_msg = result.unwrap_err();
    assert!(
        err_msg.contains("does not exist") || err_msg.contains("empty"),
        "Expected file not found or empty file error, got: {}",
        err_msg
    );
}
