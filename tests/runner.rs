use shader_variants::naming::{base_filename, shader_file_names};
use shader_variants::runner::{collect_failures, run_batch, summarize_outcomes, Outcome};
use shader_variants::variant::{ShaderDialect, ShaderOptimizationError, ShaderOptimizationInput};
use std::collections::HashSet;
use std::sync::atomic::{AtomicUsize, Ordering};
use std::sync::Mutex;

fn items(n: usize) -> Vec<ShaderOptimizationInput> {
    (0..n)
        .map(|i| ShaderOptimizationInput::new(format!("shader{}", i), String::new(), ShaderDialect::Gl))
        .collect()
}

fn fail(item: &ShaderOptimizationInput, msg: &str) -> Outcome {
    Err(ShaderOptimizationError { shader: item.duplicate(), message: msg.to_string() })
}

fn completeness(n: usize) {
    let seen = Mutex::new(Vec::new());
    let list = items(n);
    let outcomes = run_batch(
        &|i: &ShaderOptimizationInput| {
            seen.lock().unwrap().push(i.shader_name.clone());
            Ok(())
        },
        &list,
    )
    .unwrap();
    assert_eq!(outcomes.len(), n);
    let mut seen = seen.into_inner().unwrap();
    seen.sort();
    let mut want: Vec<String> = list.iter().map(|i| i.shader_name.clone()).collect();
    want.sort();
    assert_eq!(seen, want);
}

#[test]
fn one_outcome_per_item_for_any_batch_size() {
    for n in [0, 1, 2, 7, 40] {
        completeness(n);
    }
}

#[test]
fn failing_item_does_not_stop_siblings() {
    let list = items(6);
    let calls = AtomicUsize::new(0);
    let outcomes = run_batch(
        &|i: &ShaderOptimizationInput| {
            calls.fetch_add(1, Ordering::SeqCst);
            if i.shader_name == "shader0" {
                fail(i, "always fails")
            } else {
                Ok(())
            }
        },
        &list,
    )
    .unwrap();
    assert_eq!(calls.load(Ordering::SeqCst), 6);
    assert!(outcomes[0].is_err());
    assert!(outcomes[1..].iter().all(|o| o.is_ok()));
}

#[test]
fn second_of_three_fails_and_writes_no_optimized_files() {
    let list: Vec<ShaderOptimizationInput> = ["one", "two", "three"]
        .iter()
        .map(|n| ShaderOptimizationInput::new(n.to_string(), String::new(), ShaderDialect::Gles))
        .collect();
    let raw = Mutex::new(HashSet::new());
    let optimized = Mutex::new(HashSet::new());
    let outcomes = run_batch(
        &|i: &ShaderOptimizationInput| {
            let (v, f) = shader_file_names(&base_filename(i));
            raw.lock().unwrap().extend([v.clone(), f.clone()]);
            if i.shader_name == "two" {
                return fail(i, "bad vertex stage");
            }
            optimized.lock().unwrap().extend([v, f]);
            Ok(())
        },
        &list,
    )
    .unwrap();
    assert!(outcomes[0].is_ok());
    assert!(outcomes[2].is_ok());
    match &outcomes[1] {
        Err(e) => {
            assert_eq!(e.shader.shader_name, "two");
            assert_eq!(e.message, "bad vertex stage");
        }
        Ok(()) => panic!("second item should fail"),
    }
    let raw = raw.into_inner().unwrap();
    let optimized = optimized.into_inner().unwrap();
    for n in ["one", "three"] {
        for ext in ["vert", "frag"] {
            assert!(raw.contains(&format!("{}_Gles.{}", n, ext)));
            assert!(optimized.contains(&format!("{}_Gles.{}", n, ext)));
        }
    }
    assert!(!optimized.iter().any(|f| f.starts_with("two_")));
    assert_eq!(optimized.len(), 4);
    let summary = summarize_outcomes(&outcomes);
    match summary {
        Err(fs) => {
            assert_eq!(fs.len(), 1);
            assert_eq!(fs[0].shader.shader_name, "two");
        }
        Ok(()) => panic!("the run should fail"),
    }
}

#[test]
fn all_successes_summarize_to_ok() {
    let outcomes: Vec<Outcome> = vec![Ok(()), Ok(()), Ok(())];
    assert!(summarize_outcomes(&outcomes).is_ok());
    assert!(summarize_outcomes(&Vec::new()).is_ok());
    assert!(collect_failures(&outcomes).is_empty());
}

#[test]
fn failures_are_collected_in_order() {
    let list = items(4);
    let outcomes: Vec<Outcome> = vec![fail(&list[0], "a"), Ok(()), fail(&list[2], "c"), fail(&list[3], "d")];
    let fs = collect_failures(&outcomes);
    let got: Vec<(String, String)> = fs.iter().map(|e| (e.shader.shader_name.clone(), e.message.clone())).collect();
    assert_eq!(
        got,
        vec![
            ("shader0".to_string(), "a".to_string()),
            ("shader2".to_string(), "c".to_string()),
            ("shader3".to_string(), "d".to_string()),
        ]
    );
    assert_eq!(summarize_outcomes(&outcomes).unwrap_err().len(), 3);
}
