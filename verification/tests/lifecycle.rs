use qovery_engine::cloud_provider::aws::databases::mysql::{
    CreateProgress, CreateStage, DeleteProgress, DeleteStage, MySQL,
};
use qovery_engine::cloud_provider::service::{Action, DatabaseOptions, DatabaseType, ServiceType};
use qovery_engine::cloud_provider::{DeploymentTarget, Environment, Kubernetes};
use qovery_engine::cmd::{Command, LabelsContent, Outcome, Timeout};
use qovery_engine::error::{EngineError, EngineErrorCause, EngineErrorScope};
use qovery_engine::models::ExecutionContext;

fn context(expiration: Option<u32>) -> ExecutionContext {
    ExecutionContext::new("exec-1", "/work", "/lib", true, false, expiration)
}

fn service(expiration: Option<u32>) -> MySQL {
    MySQL::new(
        context(expiration),
        "db1",
        Action::Create,
        "shop",
        "8.0.21",
        "db.example.com",
        "fqdn-1",
        "500m".to_string(),
        1024,
        "db.t2.micro",
        DatabaseOptions {
            login: "root".to_string(),
            password: "secret".to_string(),
            host: "db.internal".to_string(),
            port: 3306,
            disk_size_in_gib: 20,
            database_disk_type: "gp2".to_string(),
        },
    )
}

fn cluster() -> Kubernetes {
    Kubernetes {
        id: "k1".to_string(),
        name: "cluster".to_string(),
        region: "eu-west-3".to_string(),
        access_key_id: "AKIA".to_string(),
        secret_access_key: "shh".to_string(),
    }
}

fn surroundings() -> Environment {
    Environment { organization_id: "org".to_string(), namespace: "proj-env".to_string() }
}

fn envs() -> Vec<(String, String)> {
    vec![
        ("AWS_ACCESS_KEY_ID".to_string(), "AKIA".to_string()),
        ("AWS_SECRET_ACCESS_KEY".to_string(), "shh".to_string()),
    ]
}

fn workspace() -> String {
    "/work/.qovery-workspace/exec-1/databases/shop".to_string()
}

fn internal(message: Option<&str>) -> EngineError {
    EngineError {
        cause: EngineErrorCause::Internal,
        scope: EngineErrorScope::Database("db1".to_string(), "shop".to_string()),
        execution_id: "exec-1".to_string(),
        message: message.map(|m| m.to_string()),
    }
}

fn render_dirs(command: &Command) -> (String, String) {
    match command {
        Command::Render { from_dir, to_dir, .. } => (from_dir.clone(), to_dir.clone()),
        other => panic!("not a rendering: {:?}", other),
    }
}

fn kubeconfig_command() -> Command {
    Command::Kubeconfig {
        workspace_dir: workspace(),
        organization_id: "org".to_string(),
        cluster_id: "k1".to_string(),
        access_key_id: "AKIA".to_string(),
        secret_access_key: "shh".to_string(),
        region: "eu-west-3".to_string(),
    }
}

#[test]
fn descriptor_keeps_what_it_was_built_with() {
    let mysql = service(Some(60));
    assert_eq!(mysql.id(), "db1");
    assert_eq!(mysql.name(), "shop");
    assert_eq!(mysql.version(), "8.0.21");
    assert_eq!(*mysql.action(), Action::Create);
    assert_eq!(mysql.private_port(), Some(3306));
    assert_eq!(mysql.total_cpus(), "500m");
    assert_eq!(mysql.total_ram_in_mib(), 1024);
    assert_eq!(mysql.total_instances(), 1);
    assert_eq!(mysql.context().execution_id(), "exec-1");
    assert_eq!(mysql.context().lib_root_dir(), "/lib");
    assert_eq!(mysql.context().workspace_root_dir(), "/work");
    assert!(mysql.context().is_dry_run_deploy());
    assert!(!mysql.context().is_test_cluster());
    assert_eq!(mysql.context().resource_expiration_in_seconds(), Some(60));
    assert_eq!(mysql.fqdn, "db.example.com");
    assert_eq!(mysql.fqdn_id, "fqdn-1");
    assert_eq!(mysql.database_instance_type, "db.t2.micro");
    assert_eq!(mysql.service_type(), ServiceType::Database(DatabaseType::MySQL(&mysql.options)));
    assert_eq!(mysql.workspace_directory(), workspace());
    assert_eq!(
        mysql.engine_error_scope(),
        EngineErrorScope::Database("db1".to_string(), "shop".to_string())
    );
    assert_eq!(
        mysql.engine_error(EngineErrorCause::User, "no".to_string()),
        EngineError {
            cause: EngineErrorCause::User,
            scope: EngineErrorScope::Database("db1".to_string(), "shop".to_string()),
            execution_id: "exec-1".to_string(),
            message: Some("no".to_string()),
        }
    );
}

#[test]
fn release_name_of_a_long_id_is_cut_to_fifty() {
    let id = "a".repeat(60);
    let mut mysql = service(None);
    mysql.id = id.clone();
    let name = mysql.helm_release_name();
    assert_eq!(name.chars().count(), 50);
    assert_eq!(name, format!("mysql-{}", &id[..44]));
}

#[test]
fn release_name_of_a_short_id_is_whole() {
    assert_eq!(service(None).helm_release_name(), "mysql-db1");
    let mut mysql = service(None);
    mysql.id = "b".repeat(44);
    assert_eq!(mysql.helm_release_name(), format!("mysql-{}", "b".repeat(44)));
    mysql.id = "b".repeat(45);
    assert_eq!(mysql.helm_release_name(), format!("mysql-{}", "b".repeat(44)));
    mysql.id = String::new();
    assert_eq!(mysql.helm_release_name(), "mysql-");
}

#[test]
fn release_name_is_cut_between_characters() {
    let mut mysql = service(None);
    mysql.id = "é".repeat(60);
    let name = mysql.helm_release_name();
    assert_eq!(name.chars().count(), 50);
    assert_eq!(name, format!("mysql-{}", "é".repeat(44)));
}

#[test]
fn rendering_context_holds_every_key() {
    let mysql = service(Some(3600));
    let context = mysql.tera_context(&cluster(), &surroundings(), Some("/work/kubeconfig"));
    let text = |key: &str| context.get(key).and_then(|value| value.as_str()).map(str::to_string);
    let number = |key: &str| context.get(key).and_then(|value| value.as_u64());
    assert_eq!(text("kubeconfig_path"), Some("/work/kubeconfig".to_string()));
    assert_eq!(text("namespace"), Some("proj-env".to_string()));
    assert_eq!(text("aws_access_key"), Some("AKIA".to_string()));
    assert_eq!(text("aws_secret_key"), Some("shh".to_string()));
    assert_eq!(text("eks_cluster_id"), Some("k1".to_string()));
    assert_eq!(text("eks_cluster_name"), Some("cluster".to_string()));
    assert_eq!(text("fqdn_id"), Some("fqdn-1".to_string()));
    assert_eq!(text("fqdn"), Some("db.example.com".to_string()));
    assert_eq!(text("database_login"), Some("root".to_string()));
    assert_eq!(text("database_password"), Some("secret".to_string()));
    assert_eq!(number("database_port"), Some(3306));
    assert_eq!(number("database_disk_size_in_gib"), Some(20));
    assert_eq!(text("database_instance_type"), Some("db.t2.micro".to_string()));
    assert_eq!(text("database_disk_type"), Some("gp2".to_string()));
    assert_eq!(number("database_ram_size_in_mib"), Some(1024));
    assert_eq!(text("database_total_cpus"), Some("500m".to_string()));
    assert_eq!(text("database_fqdn"), Some("db.internal".to_string()));
    assert_eq!(text("database_id"), Some("db1".to_string()));
    assert_eq!(text("tfstate_suffix_name"), Some("db1".to_string()));
    assert_eq!(text("tfstate_name"), Some("tfstate-default-db1".to_string()));
    assert_eq!(context.get("delete_automated_backups"), Some(&tera::Value::Bool(false)));
    assert_eq!(number("resource_expiration_in_seconds"), Some(3600));
    assert_eq!(context.clone().into_json().as_object().unwrap().len(), 22);
}

#[test]
fn rendering_context_leaves_out_what_is_not_known() {
    let mut mysql = service(None);
    mysql.context.test_cluster = true;
    let context = mysql.tera_context(&cluster(), &surroundings(), None);
    assert!(!context.contains_key("kubeconfig_path"));
    assert!(!context.contains_key("resource_expiration_in_seconds"));
    assert_eq!(context.get("delete_automated_backups"), Some(&tera::Value::Bool(true)));
    assert_eq!(context.clone().into_json().as_object().unwrap().len(), 20);
    assert_eq!(tera::Context::new().into_json().as_object().unwrap().len(), 0);
}

#[test]
fn managed_creation_renders_then_applies() {
    let mysql = service(None);
    let (kubernetes, environment) = (cluster(), surroundings());
    let target = DeploymentTarget::ManagedServices(&kubernetes, &environment);
    let mut progress = CreateProgress::new();
    assert_eq!(mysql.create_command(&target, &progress), kubeconfig_command());
    progress = mysql.on_create(&target, progress, Outcome::Path("/work/kubeconfig".to_string()));
    assert_eq!(progress.kubeconfig_path.as_deref(), Some("/work/kubeconfig"));
    assert_eq!(
        mysql.create_command(&target, &progress),
        Command::CreateNamespace {
            kubeconfig: "/work/kubeconfig".to_string(),
            namespace: "proj-env".to_string(),
            labels: None,
            envs: envs(),
        }
    );
    progress = mysql.on_create(&target, progress, Outcome::Failed(Some("exists".to_string())));
    let expected = [
        ("/lib/aws/services/common", workspace()),
        ("/lib/aws/services/mysql", workspace()),
        ("/lib/aws/charts/external-name-svc", format!("{}/external-name-svc", workspace())),
        ("/lib/aws/charts/external-name-svc", workspace()),
    ];
    for (from_dir, to_dir) in expected {
        let command = mysql.create_command(&target, &progress);
        assert_eq!(render_dirs(&command), (from_dir.to_string(), to_dir));
        match command {
            Command::Render { context, .. } => assert_eq!(
                context,
                mysql.tera_context(&kubernetes, &environment, Some("/work/kubeconfig"))
            ),
            _ => unreachable!(),
        }
        progress = mysql.on_create(&target, progress, Outcome::Done);
    }
    assert_eq!(
        mysql.create_command(&target, &progress),
        Command::TerraformApply { dir: workspace(), dry_run: true }
    );
    progress = mysql.on_create(&target, progress, Outcome::Done);
    assert_eq!(progress.stage, CreateStage::Succeeded);
    assert_eq!(mysql.create_command(&target, &progress), Command::Finish(Ok(())));
    progress = mysql.on_create(&target, progress, Outcome::Failed(None));
    assert_eq!(progress.stage, CreateStage::Succeeded);
}

#[test]
fn managed_creation_stops_at_the_first_failure() {
    let mysql = service(None);
    let (kubernetes, environment) = (cluster(), surroundings());
    let target = DeploymentTarget::ManagedServices(&kubernetes, &environment);
    for failing in 0..5 {
        let mut progress = CreateProgress::new();
        progress = mysql.on_create(&target, progress, Outcome::Failed(None));
        assert_eq!(progress.stage, CreateStage::RenderCommon);
        assert_eq!(progress.kubeconfig_path, None);
        for _ in 0..failing {
            progress = mysql.on_create(&target, progress, Outcome::Done);
        }
        progress = mysql.on_create(&target, progress, Outcome::Failed(Some("boom".to_string())));
        assert_eq!(progress.stage, CreateStage::Failed(internal(Some("boom"))));
        assert_eq!(
            mysql.create_command(&target, &progress),
            Command::Finish(Err(internal(Some("boom"))))
        );
        progress = mysql.on_create(&target, progress, Outcome::Done);
        assert_eq!(progress.stage, CreateStage::Failed(internal(Some("boom"))));
    }
}

#[test]
fn self_hosted_creation_releases_then_waits() {
    let mysql = service(Some(7200));
    let (kubernetes, environment) = (cluster(), surroundings());
    let target = DeploymentTarget::SelfHosted(&kubernetes, &environment);
    let mut progress = CreateProgress::new();
    progress = mysql.on_create(&target, progress, Outcome::Failed(None));
    assert_eq!(progress.stage, CreateStage::Kubeconfig);
    assert_eq!(mysql.create_command(&target, &progress), kubeconfig_command());
    progress = mysql.on_create(&target, progress, Outcome::Path("/k".to_string()));
    assert_eq!(
        render_dirs(&mysql.create_command(&target, &progress)),
        ("/lib/common/services/mysql".to_string(), workspace())
    );
    progress = mysql.on_create(&target, progress, Outcome::Done);
    assert_eq!(
        render_dirs(&mysql.create_command(&target, &progress)),
        ("/lib/common/chart_values/mysql".to_string(), workspace())
    );
    progress = mysql.on_create(&target, progress, Outcome::Done);
    assert_eq!(
        mysql.create_command(&target, &progress),
        Command::CreateNamespace {
            kubeconfig: "/k".to_string(),
            namespace: "proj-env".to_string(),
            labels: Some(vec![LabelsContent { name: "ttl".to_string(), value: "7200".to_string() }]),
            envs: envs(),
        }
    );
    progress = mysql.on_create(&target, progress, Outcome::Done);
    assert_eq!(
        mysql.create_command(&target, &progress),
        Command::HelmUpgrade {
            kubeconfig: "/k".to_string(),
            namespace: "proj-env".to_string(),
            release_name: "mysql-db1".to_string(),
            chart_dir: workspace(),
            timeout: Timeout::Default,
            envs: envs(),
        }
    );
    progress = mysql.on_create(&target, progress, Outcome::History(Some(true)));
    assert_eq!(
        mysql.create_command(&target, &progress),
        Command::WaitPodReady {
            kubeconfig: "/k".to_string(),
            namespace: "proj-env".to_string(),
            selector: "app=shop".to_string(),
            envs: envs(),
        }
    );
    progress = mysql.on_create(&target, progress, Outcome::Ready(Some(true)));
    assert_eq!(progress.stage, CreateStage::Succeeded);
    assert_eq!(mysql.create_command(&target, &progress), Command::Finish(Ok(())));
}

#[test]
fn namespace_without_expiration_has_no_labels() {
    let mysql = service(None);
    let (kubernetes, environment) = (cluster(), surroundings());
    let target = DeploymentTarget::SelfHosted(&kubernetes, &environment);
    let progress =
        CreateProgress { stage: CreateStage::Namespace("/k".to_string()), kubeconfig_path: None };
    assert_eq!(
        mysql.create_command(&target, &progress),
        Command::CreateNamespace {
            kubeconfig: "/k".to_string(),
            namespace: "proj-env".to_string(),
            labels: None,
            envs: envs(),
        }
    );
}

#[test]
fn unsuccessful_release_fails_before_any_wait() {
    let mysql = service(None);
    let (kubernetes, environment) = (cluster(), surroundings());
    let target = DeploymentTarget::SelfHosted(&kubernetes, &environment);
    for history in [Some(false), None] {
        let progress =
            CreateProgress { stage: CreateStage::Release("/k".to_string()), kubeconfig_path: None };
        let next = mysql.on_create(&target, progress, Outcome::History(history));
        let command = mysql.create_command(&target, &next);
        match command {
            Command::Finish(Err(error)) => {
                assert_eq!(error.cause, EngineErrorCause::Internal);
                assert!(error.message.as_deref().unwrap().contains("fails to be deployed (before start)"));
                assert_eq!(
                    error,
                    internal(Some("MySQL database fails to be deployed (before start)"))
                );
            }
            other => panic!("the creation went on: {:?}", other),
        }
    }
}

#[test]
fn pods_that_are_not_ready_fail_the_creation() {
    let mysql = service(None);
    let (kubernetes, environment) = (cluster(), surroundings());
    let target = DeploymentTarget::SelfHosted(&kubernetes, &environment);
    for outcome in [Outcome::Ready(Some(false)), Outcome::Ready(None), Outcome::Failed(None)] {
        let progress = CreateProgress {
            stage: CreateStage::Readiness("/k".to_string()),
            kubeconfig_path: None,
        };
        let next = mysql.on_create(&target, progress, outcome);
        assert_eq!(
            next.stage,
            CreateStage::Failed(internal(Some(
                "MySQL database shop with id db1 failed to start after several retries"
            )))
        );
    }
}

#[test]
fn self_hosted_creation_fails_with_the_tool_s_message() {
    let mysql = service(None);
    let (kubernetes, environment) = (cluster(), surroundings());
    let target = DeploymentTarget::SelfHosted(&kubernetes, &environment);
    let stages = || {
        vec![
            CreateStage::Kubeconfig,
            CreateStage::RenderChart("/k".to_string()),
            CreateStage::RenderValues("/k".to_string()),
            CreateStage::Namespace("/k".to_string()),
            CreateStage::Release("/k".to_string()),
        ]
    };
    for stage in stages() {
        let progress = CreateProgress { stage, kubeconfig_path: None };
        let next = mysql.on_create(&target, progress, Outcome::Failed(Some("why".to_string())));
        assert_eq!(next.stage, CreateStage::Failed(internal(Some("why"))));
    }
    let progress = CreateProgress { stage: CreateStage::Kubeconfig, kubeconfig_path: None };
    let next = mysql.on_create(&target, progress, Outcome::Failed(None));
    assert_eq!(next.stage, CreateStage::Failed(internal(None)));
}

#[test]
fn outcome_that_does_not_answer_the_call_is_ignored() {
    let mysql = service(None);
    let (kubernetes, environment) = (cluster(), surroundings());
    let target = DeploymentTarget::SelfHosted(&kubernetes, &environment);
    let progress = mysql.on_create(&target, CreateProgress::new(), Outcome::Done);
    assert_eq!(progress, CreateProgress::new());
    let progress = mysql.on_create(&target, progress, Outcome::History(Some(true)));
    assert_eq!(progress, CreateProgress::new());
    let release =
        || CreateProgress { stage: CreateStage::Release("/k".to_string()), kubeconfig_path: None };
    assert_eq!(mysql.on_create(&target, release(), Outcome::Done), release());
    assert_eq!(mysql.on_create(&target, release(), Outcome::Ready(Some(true))), release());
    assert_eq!(mysql.on_create(&target, release(), Outcome::Path("/x".to_string())), release());
    let render = || CreateProgress { stage: CreateStage::RenderCommon, kubeconfig_path: None };
    assert_eq!(mysql.on_create(&target, render(), Outcome::Path("/x".to_string())), render());
    let delete = || DeleteProgress { stage: DeleteStage::Destroy, kubeconfig_path: None };
    assert_eq!(mysql.delete(delete(), Outcome::Ready(None)), delete());
}

#[test]
fn managed_deletion_destroys_then_removes_the_state() {
    let mysql = service(None);
    let (kubernetes, environment) = (cluster(), surroundings());
    let target = DeploymentTarget::ManagedServices(&kubernetes, &environment);
    let mut progress = DeleteProgress::new(&target);
    assert_eq!(progress.stage, DeleteStage::ContextKubeconfig);
    assert_eq!(mysql.delete_command(&target, &progress), kubeconfig_command());
    progress = mysql.delete(progress, Outcome::Path("/k".to_string()));
    assert_eq!(
        mysql.delete_command(&target, &progress),
        Command::CreateNamespace {
            kubeconfig: "/k".to_string(),
            namespace: "proj-env".to_string(),
            labels: None,
            envs: envs(),
        }
    );
    progress = mysql.delete(progress, Outcome::Done);
    let expected = [
        ("/lib/aws/services/common", workspace()),
        ("/lib/aws/services/mysql", workspace()),
        ("/lib/aws/charts/external-name-svc", format!("{}/external-name-svc", workspace())),
        ("/lib/aws/charts/external-name-svc", workspace()),
    ];
    for (from_dir, to_dir) in expected {
        let command = mysql.delete_command(&target, &progress);
        assert_eq!(render_dirs(&command), (from_dir.to_string(), to_dir));
        progress = mysql.on_delete(progress, Outcome::Done);
    }
    assert_eq!(
        mysql.delete_command(&target, &progress),
        Command::TerraformDestroy { dir: workspace() }
    );
    progress = mysql.delete(progress, Outcome::Done);
    assert_eq!(
        mysql.delete_command(&target, &progress),
        Command::DeleteStateSecret {
            state_name: "tfstate-default-db1".to_string(),
            workspace_dir: workspace(),
        }
    );
    progress = mysql.delete(progress, Outcome::Failed(Some("no secret".to_string())));
    assert_eq!(progress.stage, DeleteStage::Succeeded);
    assert_eq!(mysql.delete_command(&target, &progress), Command::Finish(Ok(())));
}

#[test]
fn failed_destruction_is_reported_with_the_tool_s_message() {
    let mysql = service(None);
    let progress = DeleteProgress { stage: DeleteStage::Destroy, kubeconfig_path: None };
    let next = mysql.delete(progress, Outcome::Failed(Some("state locked".to_string())));
    assert_eq!(
        next.stage,
        DeleteStage::Failed(internal(Some("Error while destroying infrastructure state locked")))
    );
    let progress = DeleteProgress { stage: DeleteStage::Destroy, kubeconfig_path: None };
    let next = mysql.delete(progress, Outcome::Failed(None));
    assert_eq!(
        next.stage,
        DeleteStage::Failed(internal(Some("Error while destroying infrastructure ")))
    );
    let progress = DeleteProgress { stage: DeleteStage::RenderEngine, kubeconfig_path: None };
    let next = mysql.delete(progress, Outcome::Failed(Some("no template".to_string())));
    assert_eq!(next.stage, DeleteStage::Failed(internal(Some("no template"))));
}

#[test]
fn self_hosted_deletion_uninstalls_the_release() {
    let mysql = service(None);
    let (kubernetes, environment) = (cluster(), surroundings());
    let target = DeploymentTarget::SelfHosted(&kubernetes, &environment);
    let progress = DeleteProgress::new(&target);
    assert_eq!(
        mysql.delete_command(&target, &progress),
        Command::HelmCleanup { workspace_dir: workspace(), release_name: "mysql-db1".to_string() }
    );
    let done = mysql.delete(progress, Outcome::Done);
    assert_eq!(done.stage, DeleteStage::Succeeded);
    let failed = mysql.delete(DeleteProgress::new(&target), Outcome::Failed(Some("x".to_string())));
    assert_eq!(failed.stage, DeleteStage::Failed(internal(Some("x"))));
    assert_eq!(
        mysql.delete_command(&target, &failed),
        Command::Finish(Err(internal(Some("x"))))
    );
}

#[test]
fn checks_and_error_hooks_of_create_pause_and_delete_do_nothing() {
    let mysql = service(None);
    let (kubernetes, environment) = (cluster(), surroundings());
    let target = DeploymentTarget::SelfHosted(&kubernetes, &environment);
    assert_eq!(mysql.on_create_check(), Ok(()));
    assert_eq!(mysql.on_create_error(&target), Ok(()));
    assert_eq!(mysql.on_pause(&target), Ok(()));
    assert_eq!(mysql.on_pause_check(), Ok(()));
    assert_eq!(mysql.on_pause_error(&target), Ok(()));
    assert_eq!(mysql.on_delete_check(), Ok(()));
    assert_eq!(mysql.on_delete_error(&target), Ok(()));
}

#[test]
fn hooks_without_behaviour_are_turned_down() {
    let mysql = service(None);
    let (kubernetes, environment) = (cluster(), surroundings());
    let target = DeploymentTarget::ManagedServices(&kubernetes, &environment);
    let turned_down = |hook: &str| {
        Err(EngineError {
            cause: EngineErrorCause::NotImplemented,
            scope: EngineErrorScope::Database("db1".to_string(), "shop".to_string()),
            execution_id: "exec-1".to_string(),
            message: Some(format!("AWS.MySQL.{}() is not implemented", hook)),
        })
    };
    assert_eq!(mysql.on_clone(&target), turned_down("on_clone"));
    assert_eq!(mysql.on_clone_check(), turned_down("on_clone_check"));
    assert_eq!(mysql.on_clone_error(&target), turned_down("on_clone_error"));
    assert_eq!(mysql.on_upgrade(&target), turned_down("on_upgrade"));
    assert_eq!(mysql.on_upgrade_check(), turned_down("on_upgrade_check"));
    assert_eq!(mysql.on_upgrade_error(&target), turned_down("on_upgrade_error"));
    assert_eq!(mysql.on_downgrade(&target), turned_down("on_downgrade"));
    assert_eq!(mysql.on_downgrade_check(), turned_down("on_downgrade_check"));
    assert_eq!(mysql.on_downgrade_error(&target), turned_down("on_downgrade_error"));
    assert_eq!(mysql.on_backup(&target), turned_down("on_backup"));
    assert_eq!(mysql.on_backup_check(), turned_down("on_backup_check"));
    assert_eq!(mysql.on_backup_error(&target), turned_down("on_backup_error"));
    assert_eq!(mysql.on_restore(&target), turned_down("on_restore"));
    assert_eq!(mysql.on_restore_check(), turned_down("on_restore_check"));
    assert_eq!(mysql.on_restore_error(&target), turned_down("on_restore_error"));
}

#[test]
fn target_refers_to_its_cluster_and_environment() {
    let (kubernetes, environment) = (cluster(), surroundings());
    let target = DeploymentTarget::ManagedServices(&kubernetes, &environment);
    assert_eq!(target.kubernetes().id(), "k1");
    assert_eq!(target.kubernetes().name(), "cluster");
    assert_eq!(target.kubernetes().region(), "eu-west-3");
    assert_eq!(target.environment().namespace(), "proj-env");
    let target = DeploymentTarget::SelfHosted(&kubernetes, &environment);
    assert_eq!(target.kubernetes(), &kubernetes);
    assert_eq!(target.environment(), &environment);
}
