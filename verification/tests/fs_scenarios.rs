//! End-to-end runs of the file tools: the library plans and shapes,
//! tokio performs the filesystem work in between.

use agent_core::tools::{
    finish_read_file, finish_write_file, plan_tool, run_list_files, ReadOutcome, ToolAction,
    ToolInput, WriteOutcome,
};

fn block_on<F: std::future::Future>(f: F) -> F::Output {
    tokio::runtime::Builder::new_current_thread()
        .enable_all()
        .build()
        .unwrap()
        .block_on(f)
}

async fn path_exists(p: &str) -> bool {
    tokio::fs::metadata(p).await.is_ok()
}

async fn drive_read(path: String) -> agent_core::tools::ToolResult {
    if !path_exists(path.as_str()).await {
        return finish_read_file(path.as_str(), ReadOutcome::Missing);
    }
    match tokio::fs::read_to_string(path.as_str()).await {
        Ok(content) => finish_read_file(path.as_str(), ReadOutcome::Content(content)),
        Err(e) => finish_read_file(path.as_str(), ReadOutcome::Failed(e.to_string())),
    }
}

async fn drive_write(path: String, content: String) -> agent_core::tools::ToolResult {
    if let Some(parent) = std::path::Path::new(path.as_str()).parent() {
        if !path_exists(&parent.to_string_lossy()).await {
            if let Err(e) = tokio::fs::create_dir_all(parent).await {
                return finish_write_file(
                    path.as_str(),
                    WriteOutcome::DirCreateFailed(e.to_string()),
                );
            }
        }
    }
    match tokio::fs::write(path.as_str(), content.as_bytes()).await {
        Ok(()) => finish_write_file(path.as_str(), WriteOutcome::Written),
        Err(e) => finish_write_file(path.as_str(), WriteOutcome::WriteFailed(e.to_string())),
    }
}

#[test]
fn test_read_existing_file() {
    block_on(async {
        tokio::fs::write("/tmp/hello.txt", "hi\n").await.unwrap();
        let input = ToolInput {
            path: Some("hello.txt".to_string()),
            content: None,
            pattern: None,
            command: None,
        };
        let cwd_ok = path_exists("/tmp").await;
        let action = plan_tool("read_file", &input, "/tmp", cwd_ok);
        let result = match action {
            ToolAction::ReadFile { path } => {
                assert_eq!(path, "/tmp/hello.txt");
                drive_read(path).await
            }
            _ => panic!("expected a read action"),
        };
        assert_eq!(result.result, "hi\n");
        assert!(result.error.is_none());
    });
}

#[test]
fn test_read_missing_file() {
    block_on(async {
        let input = ToolInput {
            path: Some("does-not-exist-anywhere.txt".to_string()),
            content: None,
            pattern: None,
            command: None,
        };
        let action = plan_tool("read_file", &input, "/tmp", true);
        let result = match action {
            ToolAction::ReadFile { path } => drive_read(path).await,
            _ => panic!("expected a read action"),
        };
        assert_eq!(
            result.result,
            "Error: File not found: /tmp/does-not-exist-anywhere.txt"
        );
        assert_eq!(result.error.as_deref(), Some("File not found"));
    });
}

#[test]
fn test_write_then_read_round_trip() {
    block_on(async {
        let dir = "/tmp/agent_core_round_trip";
        let _ = tokio::fs::remove_dir_all(dir).await;
        let content = "line one\nline \"two\" with a tab\t and unicode: aé\n";
        let write_input = ToolInput {
            path: Some("nested/deep/out.txt".to_string()),
            content: Some(content.to_string()),
            pattern: None,
            command: None,
        };
        tokio::fs::create_dir_all(dir).await.unwrap();
        let action = plan_tool("write_file", &write_input, dir, true);
        let written = match action {
            ToolAction::WriteFile { path, content } => {
                assert_eq!(path, "/tmp/agent_core_round_trip/nested/deep/out.txt");
                drive_write(path, content).await
            }
            _ => panic!("expected a write action"),
        };
        assert_eq!(
            written.result,
            "Successfully wrote to /tmp/agent_core_round_trip/nested/deep/out.txt"
        );
        assert!(written.error.is_none());

        let read_input = ToolInput {
            path: Some("nested/deep/out.txt".to_string()),
            content: None,
            pattern: None,
            command: None,
        };
        let action = plan_tool("read_file", &read_input, dir, true);
        let read_back = match action {
            ToolAction::ReadFile { path } => drive_read(path).await,
            _ => panic!("expected a read action"),
        };
        assert_eq!(read_back.result, content);
        assert!(read_back.error.is_none());
    });
}

#[test]
fn test_list_files_matches_and_empty() {
    block_on(async {
        let dir = "/tmp/agent_core_listing";
        let _ = tokio::fs::remove_dir_all(dir).await;
        tokio::fs::create_dir_all(dir).await.unwrap();
        tokio::fs::write(format!("{dir}/a.txt"), "a").await.unwrap();
        tokio::fs::write(format!("{dir}/b.txt"), "b").await.unwrap();
        tokio::fs::write(format!("{dir}/c.log"), "c").await.unwrap();

        let input = ToolInput {
            path: Some(dir.to_string()),
            content: None,
            pattern: Some("*.txt".to_string()),
            command: None,
        };
        let action = plan_tool("list_files", &input, "/tmp", true);
        let (list_dir, pattern) = match action {
            ToolAction::ListFiles { dir, pattern } => (dir, pattern),
            _ => panic!("expected a listing action"),
        };
        let exists = path_exists(list_dir.as_str()).await;
        let listed = run_list_files(list_dir.as_str(), pattern.as_str(), exists);
        let mut lines: Vec<&str> = listed.result.lines().collect();
        lines.sort();
        assert_eq!(
            lines,
            vec!["/tmp/agent_core_listing/a.txt", "/tmp/agent_core_listing/b.txt"]
        );
        assert!(listed.error.is_none());

        let none = run_list_files(list_dir.as_str(), "/tmp/agent_core_listing/*.none", true);
        assert_eq!(none.result, "(no files found)");

        let missing = run_list_files("/tmp/agent_core_gone", "/tmp/agent_core_gone/*", false);
        assert_eq!(missing.result, "Error: Directory not found: /tmp/agent_core_gone");
        assert_eq!(missing.error.as_deref(), Some("Directory not found"));
    });
}

#[test]
fn test_run_command_through_shell() {
    block_on(async {
        let input = ToolInput {
            path: None,
            content: None,
            pattern: None,
            command: Some("printf hello".to_string()),
        };
        let action = plan_tool("run_command", &input, "/tmp", true);
        let (command, timeout_ms) = match action {
            ToolAction::RunShell { command, timeout_ms } => (command, timeout_ms),
            _ => panic!("expected a shell action"),
        };
        let started = std::time::Instant::now();
        let out = tokio::time::timeout(
            std::time::Duration::from_millis(timeout_ms),
            tokio::process::Command::new("/bin/bash")
                .arg("-c")
                .arg(command.as_str())
                .current_dir("/tmp")
                .output(),
        )
        .await;
        let duration_ms = started.elapsed().as_millis() as u64;
        let outcome = match out {
            Ok(Ok(output)) => agent_core::tools::CommandOutcome::Completed {
                stdout: String::from_utf8_lossy(&output.stdout).to_string(),
                stderr: String::from_utf8_lossy(&output.stderr).to_string(),
                success: output.status.success(),
                exit_code: output.status.code(),
            },
            Ok(Err(e)) => agent_core::tools::CommandOutcome::WaitFailed(e.to_string()),
            Err(_) => agent_core::tools::CommandOutcome::TimedOut,
        };
        let shaped = agent_core::tools::finish_run_command(outcome, duration_ms);
        assert_eq!(shaped.result, "hello");
        assert!(shaped.error.is_none());
        assert!(shaped.metrics.is_some());
    });
}
