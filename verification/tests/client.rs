use teleprobe::api;
use teleprobe::client::{
    hash_image, job_result, jobs_by_target, list_targets, lost_job_line, plan_job, prepare_job, run,
    run_job,
    run_url, status_is_success, tally, targets_url, Cache, ClientError, Command, Credentials, Job,
    JobResult, Plan, RunCommand, Subcommand, Tally,
};
use teleprobe::elf::{ElfError, ElfMetadata};
use teleprobe::probe::specifier::ProbeSpecifier;

fn command(host: &str) -> Command {
    Command {
        credentials: Credentials { token: "t".to_string(), host: host.to_string() },
        cmd: Subcommand::ListTargets,
    }
}

#[test]
fn host_must_start_with_http() {
    assert_eq!(command("http://localhost:8080").check(), Ok(()));
    assert_eq!(command("https://teleprobe.example").check(), Ok(()));
    assert_eq!(command("localhost:8080").check(), Err(ClientError::BadHost));
    assert_eq!(command("HTTP://x").check(), Err(ClientError::BadHost));
    assert_eq!(command("").check(), Err(ClientError::BadHost));
}

#[test]
fn run_command_carries_its_options() {
    let cmd = Command {
        credentials: Credentials { token: "t".to_string(), host: "http://h".to_string() },
        cmd: Subcommand::Run(RunCommand {
            target: Some("nrf52".to_string()),
            cache: None,
            files: vec!["a.elf".to_string()],
            recursive: false,
            show_output: true,
        }),
    };
    assert_eq!(cmd.check(), Ok(()));
    match cmd.cmd {
        Subcommand::Run(run) => assert_eq!(run.files, vec!["a.elf"]),
        Subcommand::ListTargets => panic!("a run was asked for"),
    }
}

#[test]
fn image_hash_is_blake2b_256_in_lower_case_hex() {
    assert_eq!(
        hash_image(b"").unwrap(),
        "0e5751c026e543b2e8ab2eb06099daa1d1e5df47778f7787faab45cdf12fe3a8"
    );
    assert_eq!(
        hash_image(b"abc").unwrap(),
        "bddd813c634239723171ef3fee98579b94964e3bb1cb3e427262c8c068d52319"
    );
}

#[test]
fn cache_remembers_each_hash_once() {
    let mut cache = Cache::empty();
    assert!(!cache.contains("aa"));
    cache.insert("aa".to_string());
    cache.insert("bb".to_string());
    cache.insert("aa".to_string());
    assert!(cache.contains("aa"));
    assert!(cache.contains("bb"));
    assert!(!cache.contains("a"));
    assert_eq!(*cache.files(), vec!["aa", "bb"]);
}

#[test]
fn cache_made_of_a_list_keeps_each_hash_once() {
    let list = ["b", "a", "b", "c", "a"].iter().map(|h| h.to_string()).collect();
    let cache = Cache::from_hashes(list);
    assert_eq!(*cache.files(), vec!["b", "a", "c"]);
    assert!(Cache::from_hashes(vec![]).files().is_empty());
}

fn meta(target: Option<&str>, timeout: Option<u64>) -> ElfMetadata {
    ElfMetadata {
        target: target.map(str::to_string),
        timeout,
        target_ignored: false,
        timeout_ignored: false,
    }
}

fn plan(
    named: Option<&str>,
    given: Option<&str>,
    remembered: &[&str],
) -> Result<Plan, ClientError> {
    let cache = Cache::from_hashes(remembered.iter().map(|h| h.to_string()).collect());
    plan_job(
        "fw/a.elf".to_string(),
        vec![1, 2, 3],
        "h1".to_string(),
        meta(named, Some(30)),
        &given.map(str::to_string),
        &cache,
    )
}

#[test]
fn given_target_goes_before_the_one_in_the_image() {
    match plan(Some("rpi-pico"), Some("nrf52"), &[]).unwrap() {
        Plan::Submit(job) => {
            assert_eq!(job.target, "nrf52");
            assert_eq!(job.path, "fw/a.elf");
            assert_eq!(job.elf, vec![1, 2, 3]);
            assert_eq!(job.hash, "h1");
            assert_eq!(job.timeout, Some(30));
        }
        Plan::Skip { .. } => panic!("nothing is remembered"),
    }
    match plan(Some("rpi-pico"), None, &[]).unwrap() {
        Plan::Submit(job) => assert_eq!(job.target, "rpi-pico"),
        Plan::Skip { .. } => panic!("nothing is remembered"),
    }
}

#[test]
fn image_without_target_is_refused() {
    assert_eq!(plan(None, None, &[]).unwrap_err(), ClientError::NoTarget);
    assert_eq!(plan(None, None, &["h1"]).unwrap_err(), ClientError::NoTarget);
}

#[test]
fn remembered_image_is_skipped() {
    match plan(Some("rpi-pico"), None, &["h0", "h1"]).unwrap() {
        Plan::Skip { target, path, hash } => {
            assert_eq!(target, "rpi-pico");
            assert_eq!(path, "fw/a.elf");
            assert_eq!(hash, "h1");
        }
        Plan::Submit(_) => panic!("the hash is remembered"),
    }
}

#[test]
fn image_that_is_no_object_is_refused() {
    let r = prepare_job("a".to_string(), b"garbage".to_vec(), &Some("t".to_string()), &Cache::empty());
    assert_eq!(r.plan.unwrap_err(), ClientError::Elf(ElfError::NotAnObject));
    assert!(!r.target_ignored);
    assert!(!r.timeout_ignored);
}

fn job(target: &str, hash: &str) -> Job {
    Job {
        path: "p".to_string(),
        target: target.to_string(),
        elf: vec![],
        hash: hash.to_string(),
        timeout: None,
    }
}

#[test]
fn jobs_are_grouped_by_target_in_order() {
    let jobs = vec![job("b", "1"), job("a", "2"), job("b", "3"), job("c", "4"), job("a", "5")];
    let groups = jobs_by_target(&jobs);
    let shown: Vec<(&str, Vec<usize>)> =
        groups.iter().map(|g| (g.target.as_str(), g.jobs.clone())).collect();
    assert_eq!(shown, vec![("b", vec![0, 2]), ("a", vec![1, 4]), ("c", vec![3])]);
    assert!(jobs_by_target(&vec![]).is_empty());
}

#[test]
fn status_codes() {
    assert!(status_is_success(200));
    assert!(status_is_success(204));
    assert!(status_is_success(299));
    assert!(!status_is_success(199));
    assert!(!status_is_success(300));
    assert!(!status_is_success(400));
    assert!(!status_is_success(404));
}

#[test]
fn result_of_a_job() {
    let j = job("t", "abc");
    let passed = job_result(&j, Some(200));
    assert!(passed.ok);
    assert_eq!(passed.hash, "abc");
    let failed = job_result(&j, Some(400));
    assert!(!failed.ok);
    assert_eq!(failed.hash, "");
    let lost = job_result(&j, None);
    assert!(!lost.ok);
    assert_eq!(lost.hash, "");
}

#[test]
fn tally_counts_and_remembers_what_passed() {
    let results = vec![
        JobResult { ok: true, hash: "h1".to_string() },
        JobResult { ok: false, hash: String::new() },
        JobResult { ok: true, hash: "h2".to_string() },
        JobResult { ok: true, hash: "h1".to_string() },
    ];
    let mut cache = Cache::from_hashes(vec!["h0".to_string()]);
    let counts = tally(&results, &mut cache);
    assert_eq!(counts, Tally { succeeded: 3, failed: 1 });
    assert_eq!(*cache.files(), vec!["h0", "h1", "h2"]);
    assert_eq!(run(counts), Err(ClientError::TestFailed));
    assert_eq!(run(Tally { succeeded: 3, failed: 0 }), Ok(()));
    assert_eq!(run(Tally { succeeded: 0, failed: 0 }), Ok(()));
}

fn shown(name: &str, chip: &str, up: bool) -> api::Target {
    api::Target {
        name: name.to_string(),
        chip: chip.to_string(),
        probe: ProbeSpecifier::from_str("x").unwrap(),
        connect_under_reset: false,
        speed: None,
        up,
        power_reset: false,
        cycle_delay_millis: 500,
        max_settle_time_millis: 20000,
    }
}

#[test]
fn targets_are_listed_in_columns() {
    let list = api::TargetList {
        targets: vec![
            shown("nrf52", "nRF52840_xxAA", true),
            shown("a-target-with-a-long-name", "STM32H743ZITx-M7", false),
        ],
    };
    assert_eq!(
        list_targets(&list),
        vec![
            "Teleprobe server supports the following targets:",
            "name                 chip           up    ",
            "nrf52                nRF52840_xxAA  true  ",
            "a-target-with-a-long-name STM32H743ZITx-M7 false ",
        ]
    );
    assert_eq!(list_targets(&api::TargetList { targets: vec![] }).len(), 2);
}

#[test]
fn addresses() {
    assert_eq!(run_url("http://h:8080", "nrf52"), "http://h:8080/targets/nrf52/run");
    assert_eq!(targets_url("http://h:8080"), "http://h:8080/targets");
}

#[test]
fn job_lines() {
    assert_eq!(run_job("nrf52", "fw/a.elf", Ok(())), "=== nrf52 fw/a.elf: OK");
    assert_eq!(run_job("nrf52", "fw/a.elf", Err(None)), "=== nrf52 fw/a.elf: SKIPPED");
    assert_eq!(
        lost_job_line("nrf52", "fw/a.elf"),
        "=== nrf52 fw/a.elf: FAILED: HTTP request failed"
    );
    assert_eq!(
        run_job("nrf52", "fw/a.elf", Err(Some((400, "Bad Request")))),
        "=== nrf52 fw/a.elf: FAILED: HTTP request failed with status code: 400: Bad Request"
    );
}
