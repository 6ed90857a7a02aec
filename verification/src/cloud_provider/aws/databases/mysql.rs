//! MySQL: its catalogs, its descriptor, and its creation and deletion on a
//! deployment target, call by call.

use crate::cloud_provider::utilities::{
    generate_supported_version, generated_versions, get_supported_version_to_use, is_resolution,
    resolved_version, SupportedVersions,
};
use crate::cloud_provider::aws::databases::utilities::{
    get_tfstate_name, get_tfstate_suffix, tfstate_name, tfstate_suffix,
};
use crate::cloud_provider::service::{Action, DatabaseOptions, DatabaseType, ServiceType};
use crate::cloud_provider::utilities::patch_key;
use crate::cloud_provider::version_laws::{
    is_catalog_of_patches, lemma_catalog_of_patches_holds_its_versions,
    lemma_generated_versions_are_patches,
    lemma_generated_versions_extend_keys, lemma_merged_versions_are_patches,
    lemma_merged_versions_extend_keys, lemma_remaining_versions_are_patches,
    lemma_remaining_versions_extend_keys, lemma_resolved_version_matches_request,
    lemma_update_is_version_of_no_other_key, matches_request, versions_are_entries,
    versions_extend_keys,
};
use crate::cloud_provider::{DeploymentTarget, Environment, Kubernetes};
use crate::cmd::{
    labels, pairs, Command, CommandView, LabelsContent, Outcome, OutcomeView, Timeout,
};
use crate::error::{
    optional_text, EngineError, EngineErrorCause, EngineErrorScope,
    EngineErrorScopeView, EngineErrorView, StringError,
};
use crate::models::ExecutionContext;
use crate::string::{
    cut, cut_text, decimal_digits, joined, lemma_short_decimal, unsigned_to_string,
};
use crate::template::{
    context_entries, insert_flag, insert_number, insert_text, new_context, no_entries,
    TemplateValue,
};
use vstd::prelude::*;
use vstd::string::*;

verus! {

/// The catalog of MySQL run in the cluster on this provider.
pub open spec fn self_hosted_versions() -> Map<Seq<char>, Seq<char>> {
    generated_versions(5, 6, 6, Some((34int, 49int)), Seq::empty()).union_prefer_right(
        generated_versions(5, 7, 7, Some((16int, 31int)), Seq::empty()),
    ).union_prefer_right(generated_versions(8, 0, 0, Some((11int, 21int)), Seq::empty()))
}

/// The 5.6 line of the managed service: the range, less the updates that the
/// provider does not offer.
pub open spec fn managed_versions_56() -> Map<Seq<char>, Seq<char>> {
    generated_versions(5, 6, 6, Some((34int, 49int)), Seq::empty()).remove("5.6.47"@).remove(
        "5.6.45"@,
    ).remove("5.6.42"@).remove("5.6.38"@).remove("5.6.36"@)
}

/// The 5.7 line of the managed service.
pub open spec fn managed_versions_57() -> Map<Seq<char>, Seq<char>> {
    generated_versions(5, 7, 7, Some((16int, 31int)), Seq::empty()).remove("5.7.29"@).remove(
        "5.7.27"@,
    ).remove("5.7.20"@).remove("5.7.18"@)
}

/// The 8.0 line of the managed service.
pub open spec fn managed_versions_80() -> Map<Seq<char>, Seq<char>> {
    generated_versions(8, 0, 0, Some((11int, 21int)), Seq::empty()).remove("8.0.18"@).remove(
        "8.0.14"@,
    ).remove("8.0.12"@)
}

/// The catalog of MySQL as the provider's managed service.
pub open spec fn managed_versions() -> Map<Seq<char>, Seq<char>> {
    managed_versions_56().union_prefer_right(managed_versions_57()).union_prefer_right(
        managed_versions_80(),
    )
}

/// The catalog of one deployment mode.
pub open spec fn mysql_versions(is_managed_service: bool) -> Map<Seq<char>, Seq<char>> {
    if is_managed_service {
        managed_versions()
    } else {
        self_hosted_versions()
    }
}

/// The name under which the engine is reported in one deployment mode.
pub open spec fn mysql_display_name(is_managed_service: bool) -> Seq<char> {
    if is_managed_service {
        "RDS MySQL"@
    } else {
        "MySQL"@
    }
}

/// In both catalogs of MySQL, every version extends its key.
pub proof fn lemma_mysql_versions_extend_keys(is_managed_service: bool)
    ensures
        versions_extend_keys(mysql_versions(is_managed_service)),
{
    let none = Seq::<char>::empty();
    let v56 = generated_versions(5, 6, 6, Some((34int, 49int)), none);
    let v57 = generated_versions(5, 7, 7, Some((16int, 31int)), none);
    let v80 = generated_versions(8, 0, 0, Some((11int, 21int)), none);
    lemma_generated_versions_extend_keys(5, 6, 6, Some((34int, 49int)));
    lemma_generated_versions_extend_keys(5, 7, 7, Some((16int, 31int)));
    lemma_generated_versions_extend_keys(8, 0, 0, Some((11int, 21int)));
    if is_managed_service {
        lemma_remaining_versions_extend_keys(v56, "5.6.47"@);
        lemma_remaining_versions_extend_keys(v56.remove("5.6.47"@), "5.6.45"@);
        lemma_remaining_versions_extend_keys(v56.remove("5.6.47"@).remove("5.6.45"@), "5.6.42"@);
        lemma_remaining_versions_extend_keys(
            v56.remove("5.6.47"@).remove("5.6.45"@).remove("5.6.42"@),
            "5.6.38"@,
        );
        lemma_remaining_versions_extend_keys(
            v56.remove("5.6.47"@).remove("5.6.45"@).remove("5.6.42"@).remove("5.6.38"@),
            "5.6.36"@,
        );
        lemma_remaining_versions_extend_keys(v57, "5.7.29"@);
        lemma_remaining_versions_extend_keys(v57.remove("5.7.29"@), "5.7.27"@);
        lemma_remaining_versions_extend_keys(v57.remove("5.7.29"@).remove("5.7.27"@), "5.7.20"@);
        lemma_remaining_versions_extend_keys(
            v57.remove("5.7.29"@).remove("5.7.27"@).remove("5.7.20"@),
            "5.7.18"@,
        );
        lemma_remaining_versions_extend_keys(v80, "8.0.18"@);
        lemma_remaining_versions_extend_keys(v80.remove("8.0.18"@), "8.0.14"@);
        lemma_remaining_versions_extend_keys(v80.remove("8.0.18"@).remove("8.0.14"@), "8.0.12"@);
        lemma_merged_versions_extend_keys(managed_versions_56(), managed_versions_57());
        lemma_merged_versions_extend_keys(
            managed_versions_56().union_prefer_right(managed_versions_57()),
            managed_versions_80(),
        );
    } else {
        lemma_merged_versions_extend_keys(v56, v57);
        lemma_merged_versions_extend_keys(v56.union_prefer_right(v57), v80);
    }
}

/// The catalog of one line of the managed service is one of patches: none
/// of the updates that were taken out is the last of its line.
proof fn lemma_managed_versions_are_patches()
    ensures
        is_catalog_of_patches(managed_versions_56()),
        is_catalog_of_patches(managed_versions_57()),
        is_catalog_of_patches(managed_versions_80()),
{
    let none = Seq::<char>::empty();
    let v56 = generated_versions(5, 6, 6, Some((34int, 49int)), none);
    let v57 = generated_versions(5, 7, 7, Some((16int, 31int)), none);
    let v80 = generated_versions(8, 0, 0, Some((11int, 21int)), none);
    lemma_generated_versions_are_patches(5, 6, 6, 34, 49);
    lemma_generated_versions_are_patches(5, 7, 7, 16, 31);
    lemma_generated_versions_are_patches(8, 0, 0, 11, 21);
    lemma_short_decimal(5);
    lemma_short_decimal(6);
    lemma_short_decimal(7);
    lemma_short_decimal(8);
    lemma_short_decimal(0);
    reveal_strlit("5.6.47");
    lemma_short_decimal(47);
    assert("5.6.47"@ =~= patch_key(5, 6, 47));
    lemma_update_is_version_of_no_other_key(5, 6, 6, 34, 49, 6, 47);
    reveal_strlit("5.6.45");
    lemma_short_decimal(45);
    assert("5.6.45"@ =~= patch_key(5, 6, 45));
    lemma_update_is_version_of_no_other_key(5, 6, 6, 34, 49, 6, 45);
    reveal_strlit("5.6.42");
    lemma_short_decimal(42);
    assert("5.6.42"@ =~= patch_key(5, 6, 42));
    lemma_update_is_version_of_no_other_key(5, 6, 6, 34, 49, 6, 42);
    reveal_strlit("5.6.38");
    lemma_short_decimal(38);
    assert("5.6.38"@ =~= patch_key(5, 6, 38));
    lemma_update_is_version_of_no_other_key(5, 6, 6, 34, 49, 6, 38);
    reveal_strlit("5.6.36");
    lemma_short_decimal(36);
    assert("5.6.36"@ =~= patch_key(5, 6, 36));
    lemma_update_is_version_of_no_other_key(5, 6, 6, 34, 49, 6, 36);
    let removed_56 = set!["5.6.47"@, "5.6.45"@, "5.6.42"@, "5.6.38"@, "5.6.36"@];
    assert(managed_versions_56() =~= v56.remove_keys(removed_56));
    lemma_remaining_versions_are_patches(v56, removed_56);
    reveal_strlit("5.7.29");
    lemma_short_decimal(29);
    assert("5.7.29"@ =~= patch_key(5, 7, 29));
    lemma_update_is_version_of_no_other_key(5, 7, 7, 16, 31, 7, 29);
    reveal_strlit("5.7.27");
    lemma_short_decimal(27);
    assert("5.7.27"@ =~= patch_key(5, 7, 27));
    lemma_update_is_version_of_no_other_key(5, 7, 7, 16, 31, 7, 27);
    reveal_strlit("5.7.20");
    lemma_short_decimal(20);
    assert("5.7.20"@ =~= patch_key(5, 7, 20));
    lemma_update_is_version_of_no_other_key(5, 7, 7, 16, 31, 7, 20);
    reveal_strlit("5.7.18");
    lemma_short_decimal(18);
    assert("5.7.18"@ =~= patch_key(5, 7, 18));
    lemma_update_is_version_of_no_other_key(5, 7, 7, 16, 31, 7, 18);
    let removed_57 = set!["5.7.29"@, "5.7.27"@, "5.7.20"@, "5.7.18"@];
    assert(managed_versions_57() =~= v57.remove_keys(removed_57));
    lemma_remaining_versions_are_patches(v57, removed_57);
    reveal_strlit("8.0.18");
    lemma_short_decimal(18);
    assert("8.0.18"@ =~= patch_key(8, 0, 18));
    lemma_update_is_version_of_no_other_key(8, 0, 0, 11, 21, 0, 18);
    reveal_strlit("8.0.14");
    lemma_short_decimal(14);
    assert("8.0.14"@ =~= patch_key(8, 0, 14));
    lemma_update_is_version_of_no_other_key(8, 0, 0, 11, 21, 0, 14);
    reveal_strlit("8.0.12");
    lemma_short_decimal(12);
    assert("8.0.12"@ =~= patch_key(8, 0, 12));
    lemma_update_is_version_of_no_other_key(8, 0, 0, 11, 21, 0, 12);
    let removed_80 = set!["8.0.18"@, "8.0.14"@, "8.0.12"@];
    assert(managed_versions_80() =~= v80.remove_keys(removed_80));
    lemma_remaining_versions_are_patches(v80, removed_80);
}

/// In both catalogs of MySQL, every version that a key maps to has an entry
/// of its own, which maps it to itself.
pub proof fn lemma_mysql_versions_are_entries(is_managed_service: bool)
    ensures
        versions_are_entries(mysql_versions(is_managed_service)),
{
    let none = Seq::<char>::empty();
    if is_managed_service {
        lemma_managed_versions_are_patches();
        lemma_merged_versions_are_patches(managed_versions_56(), managed_versions_57());
        lemma_merged_versions_are_patches(
            managed_versions_56().union_prefer_right(managed_versions_57()),
            managed_versions_80(),
        );
    } else {
        let v56 = generated_versions(5, 6, 6, Some((34int, 49int)), none);
        let v57 = generated_versions(5, 7, 7, Some((16int, 31int)), none);
        let v80 = generated_versions(8, 0, 0, Some((11int, 21int)), none);
        lemma_generated_versions_are_patches(5, 6, 6, 34, 49);
        lemma_generated_versions_are_patches(5, 7, 7, 16, 31);
        lemma_generated_versions_are_patches(8, 0, 0, 11, 21);
        lemma_merged_versions_are_patches(v56, v57);
        lemma_merged_versions_are_patches(v56.union_prefer_right(v57), v80);
    }
    lemma_catalog_of_patches_holds_its_versions(mysql_versions(is_managed_service));
}

/// Resolves a request for MySQL, as the provider's managed service or run in
/// the cluster. A version that it resolves to has the components that the
/// request names.
pub fn get_mysql_version(requested_version: &str, is_managed_service: bool) -> (resolved: Result<
    String,
    StringError,
>)
    ensures
        is_resolution(
            resolved,
            resolved_version(
                mysql_display_name(is_managed_service),
                mysql_versions(is_managed_service),
                requested_version@,
            ),
        ),
        resolved matches Ok(version) ==> matches_request(requested_version@, version@),
{
    let mut supported_mysql_versions = SupportedVersions::new();
    let database_name = if is_managed_service {
        "RDS MySQL"
    } else {
        "MySQL"
    };
    if is_managed_service {
        let mut v56 = generate_supported_version(5, 6, 6, Some(34), Some(49), None);
        v56.remove("5.6.47");
        v56.remove("5.6.45");
        v56.remove("5.6.42");
        v56.remove("5.6.38");
        v56.remove("5.6.36");
        supported_mysql_versions.extend(v56);
        let mut v57 = generate_supported_version(5, 7, 7, Some(16), Some(31), None);
        v57.remove("5.7.29");
        v57.remove("5.7.27");
        v57.remove("5.7.20");
        v57.remove("5.7.18");
        supported_mysql_versions.extend(v57);
        let mut v8 = generate_supported_version(8, 0, 0, Some(11), Some(21), None);
        v8.remove("8.0.18");
        v8.remove("8.0.14");
        v8.remove("8.0.12");
        supported_mysql_versions.extend(v8);
        assert(supported_mysql_versions@ =~= managed_versions());
    } else {
        let v56 = generate_supported_version(5, 6, 6, Some(34), Some(49), None);
        supported_mysql_versions.extend(v56);
        let v57 = generate_supported_version(5, 7, 7, Some(16), Some(31), None);
        supported_mysql_versions.extend(v57);
        let v8 = generate_supported_version(8, 0, 0, Some(11), Some(21), None);
        supported_mysql_versions.extend(v8);
        assert(supported_mysql_versions@ =~= self_hosted_versions());
    }
    proof {
        lemma_mysql_versions_extend_keys(is_managed_service);
        if resolved_version(
            mysql_display_name(is_managed_service),
            mysql_versions(is_managed_service),
            requested_version@,
        ) is Ok {
            lemma_resolved_version_matches_request(
                mysql_display_name(is_managed_service),
                mysql_versions(is_managed_service),
                requested_version@,
            );
        }
    }
    get_supported_version_to_use(database_name, supported_mysql_versions, requested_version)
}

/// The longest name that a release may carry.
pub const RELEASE_NAME_LENGTH: usize = 50;

/// The name of the release of the service `id`: `mysql-` and the id, cut to
/// the longest name allowed. The cut comes after the two are put together.
pub open spec fn release_name(id: Seq<char>) -> Seq<char> {
    cut_text("mysql-"@ + id, RELEASE_NAME_LENGTH as nat)
}

/// A MySQL database, as the provider's managed service or as a workload in
/// the cluster. `version` is the concrete version to deploy.
#[derive(Debug, PartialEq, Eq)]
pub struct MySQL {
    pub context: ExecutionContext,
    pub id: String,
    pub action: Action,
    pub name: String,
    pub version: String,
    pub fqdn: String,
    pub fqdn_id: String,
    pub total_cpus: String,
    pub total_ram_in_mib: u32,
    pub database_instance_type: String,
    pub options: DatabaseOptions,
}

impl MySQL {
    pub fn new(
        context: ExecutionContext,
        id: &str,
        action: Action,
        name: &str,
        version: &str,
        fqdn: &str,
        fqdn_id: &str,
        total_cpus: String,
        total_ram_in_mib: u32,
        database_instance_type: &str,
        options: DatabaseOptions,
    ) -> (service: MySQL)
        ensures
            service.context == context,
            service.id@ == id@,
            service.action == action,
            service.name@ == name@,
            service.version@ == version@,
            service.fqdn@ == fqdn@,
            service.fqdn_id@ == fqdn_id@,
            service.total_cpus == total_cpus,
            service.total_ram_in_mib == total_ram_in_mib,
            service.database_instance_type@ == database_instance_type@,
            service.options == options,
    {
        MySQL {
            context,
            action,
            id: String::from_str(id),
            name: String::from_str(name),
            version: String::from_str(version),
            fqdn: String::from_str(fqdn),
            fqdn_id: String::from_str(fqdn_id),
            total_cpus,
            total_ram_in_mib,
            database_instance_type: String::from_str(database_instance_type),
            options,
        }
    }

    /// The name of the service's release. It is never longer than
    /// `RELEASE_NAME_LENGTH`, however long the id is.
    pub fn helm_release_name(&self) -> (name: String)
        ensures
            name@ == release_name(self.id@),
            name@.len() <= RELEASE_NAME_LENGTH,
    {
        cut(joined("mysql-", self.id.as_str()), RELEASE_NAME_LENGTH)
    }

    /// The directory that the service's files are rendered into.
    pub open spec fn workspace(&self) -> Seq<char> {
        self.context.workspace_root_dir@ + "/.qovery-workspace/"@ + self.context.execution_id@
            + "/databases/"@ + self.name@
    }

    pub fn workspace_directory(&self) -> (dir: String)
        ensures
            dir@ == self.workspace(),
    {
        let mut dir = self.context.workspace_root_dir.clone();
        dir.append("/.qovery-workspace/");
        dir.append(self.context.execution_id.as_str());
        dir.append("/databases/");
        dir.append(self.name.as_str());
        dir
    }

    /// The scope of the errors of this service.
    pub open spec fn scope(&self) -> EngineErrorScopeView {
        EngineErrorScopeView::Database(self.id@, self.name@)
    }

    /// An error of this service.
    pub open spec fn error(
        &self,
        cause: EngineErrorCause,
        message: Option<Seq<char>>,
    ) -> EngineErrorView {
        EngineErrorView {
            cause,
            scope: self.scope(),
            execution_id: self.context.execution_id@,
            message,
        }
    }

    pub fn engine_error_scope(&self) -> (scope: EngineErrorScope)
        ensures
            scope@ == self.scope(),
    {
        EngineErrorScope::Database(self.id.clone(), self.name.clone())
    }

    pub fn engine_error(&self, cause: EngineErrorCause, message: String) -> (error: EngineError)
        ensures
            error@ == self.error(cause, Some(message@)),
    {
        EngineError::new(
            cause,
            self.engine_error_scope(),
            self.context.execution_id(),
            Some(message),
        )
    }

    /// What the templates of this service are rendered with. `kubeconfig_path`
    /// is the path of the cluster's configuration file, where one could be
    /// written.
    pub open spec fn rendering_entries(
        &self,
        kubernetes: &Kubernetes,
        environment: &Environment,
        kubeconfig_path: Option<Seq<char>>,
    ) -> Map<Seq<char>, TemplateValue> {
        let start = match kubeconfig_path {
            Some(path) => no_entries().insert("kubeconfig_path"@, TemplateValue::Text(path)),
            None => no_entries(),
        };
        let entries = start.insert("namespace"@, TemplateValue::Text(environment.namespace@)).insert(
            "aws_access_key"@,
            TemplateValue::Text(kubernetes.access_key_id@),
        ).insert("aws_secret_key"@, TemplateValue::Text(kubernetes.secret_access_key@)).insert(
            "eks_cluster_id"@,
            TemplateValue::Text(kubernetes.id@),
        ).insert("eks_cluster_name"@, TemplateValue::Text(kubernetes.name@)).insert(
            "fqdn_id"@,
            TemplateValue::Text(self.fqdn_id@),
        ).insert("fqdn"@, TemplateValue::Text(self.fqdn@)).insert(
            "database_login"@,
            TemplateValue::Text(self.options.login@),
        ).insert("database_password"@, TemplateValue::Text(self.options.password@)).insert(
            "database_port"@,
            TemplateValue::Number(self.options.port as int),
        ).insert(
            "database_disk_size_in_gib"@,
            TemplateValue::Number(self.options.disk_size_in_gib as int),
        ).insert(
            "database_instance_type"@,
            TemplateValue::Text(self.database_instance_type@),
        ).insert(
            "database_disk_type"@,
            TemplateValue::Text(self.options.database_disk_type@),
        ).insert(
            "database_ram_size_in_mib"@,
            TemplateValue::Number(self.total_ram_in_mib as int),
        ).insert("database_total_cpus"@, TemplateValue::Text(self.total_cpus@)).insert(
            "database_fqdn"@,
            TemplateValue::Text(self.options.host@),
        ).insert("database_id"@, TemplateValue::Text(self.id@)).insert(
            "tfstate_suffix_name"@,
            TemplateValue::Text(tfstate_suffix(self.id@)),
        ).insert("tfstate_name"@, TemplateValue::Text(tfstate_name(self.id@))).insert(
            "delete_automated_backups"@,
            TemplateValue::Flag(self.context.test_cluster),
        );
        match self.context.resource_expiration_in_seconds {
            Some(seconds) => entries.insert(
                "resource_expiration_in_seconds"@,
                TemplateValue::Number(seconds as int),
            ),
            None => entries,
        }
    }

    /// Builds the context that the templates of this service are rendered
    /// with.
    pub fn tera_context(
        &self,
        kubernetes: &Kubernetes,
        environment: &Environment,
        kubeconfig_path: Option<&str>,
    ) -> (context: tera::Context)
        ensures
            context_entries(context) == self.rendering_entries(
                kubernetes,
                environment,
                match kubeconfig_path {
                    Some(path) => Some(path@),
                    None => None,
                },
            ),
    {
        let mut context = new_context();
        match kubeconfig_path {
            Some(path) => {
                insert_text(&mut context, "kubeconfig_path", path);
            },
            None => {},
        }
        insert_text(&mut context, "namespace", environment.namespace());
        insert_text(&mut context, "aws_access_key", kubernetes.access_key_id.as_str());
        insert_text(&mut context, "aws_secret_key", kubernetes.secret_access_key.as_str());
        insert_text(&mut context, "eks_cluster_id", kubernetes.id());
        insert_text(&mut context, "eks_cluster_name", kubernetes.name());
        insert_text(&mut context, "fqdn_id", self.fqdn_id.as_str());
        insert_text(&mut context, "fqdn", self.fqdn.as_str());
        insert_text(&mut context, "database_login", self.options.login.as_str());
        insert_text(&mut context, "database_password", self.options.password.as_str());
        insert_number(&mut context, "database_port", self.options.port as u32);
        insert_number(&mut context, "database_disk_size_in_gib", self.options.disk_size_in_gib);
        insert_text(&mut context, "database_instance_type", self.database_instance_type.as_str());
        insert_text(&mut context, "database_disk_type", self.options.database_disk_type.as_str());
        insert_number(&mut context, "database_ram_size_in_mib", self.total_ram_in_mib);
        insert_text(&mut context, "database_total_cpus", self.total_cpus.as_str());
        insert_text(&mut context, "database_fqdn", self.options.host.as_str());
        insert_text(&mut context, "database_id", self.id());
        let suffix = get_tfstate_suffix(self.id());
        insert_text(&mut context, "tfstate_suffix_name", suffix.as_str());
        let state_name = get_tfstate_name(self.id());
        insert_text(&mut context, "tfstate_name", state_name.as_str());
        insert_flag(&mut context, "delete_automated_backups", self.context.is_test_cluster());
        match self.context.resource_expiration_in_seconds() {
            Some(seconds) => {
                insert_number(&mut context, "resource_expiration_in_seconds", seconds);
            },
            None => {},
        }
        context
    }

    pub fn context(&self) -> (context: &ExecutionContext)
        ensures
            *context == self.context,
    {
        &self.context
    }

    pub fn service_type(&self) -> (kind: ServiceType<'_>)
        ensures
            kind == ServiceType::Database(DatabaseType::MySQL(&self.options)),
    {
        ServiceType::Database(DatabaseType::MySQL(&self.options))
    }

    pub fn id(&self) -> (id: &str)
        ensures
            id@ == self.id@,
    {
        self.id.as_str()
    }

    pub fn name(&self) -> (name: &str)
        ensures
            name@ == self.name@,
    {
        self.name.as_str()
    }

    pub fn version(&self) -> (version: &str)
        ensures
            version@ == self.version@,
    {
        self.version.as_str()
    }

    pub fn action(&self) -> (action: &Action)
        ensures
            *action == self.action,
    {
        &self.action
    }

    pub fn private_port(&self) -> (port: Option<u16>)
        ensures
            port == Some(self.options.port),
    {
        Some(self.options.port)
    }

    pub fn total_cpus(&self) -> (cpus: String)
        ensures
            cpus@ == self.total_cpus@,
    {
        self.total_cpus.clone()
    }

    pub fn total_ram_in_mib(&self) -> (ram: u32)
        ensures
            ram == self.total_ram_in_mib,
    {
        self.total_ram_in_mib
    }

    /// A database runs as one instance.
    pub fn total_instances(&self) -> (instances: u16)
        ensures
            instances == 1,
    {
        1
    }
}

/// Where a creation stands: the call that is awaited, with what earlier
/// calls reported and later ones need.
#[derive(Debug, PartialEq, Eq)]
pub enum CreateStage {
    /// The cluster's configuration file is being written for the templates.
    ContextKubeconfig,
    /// The namespace is being created, without labels, with the
    /// configuration file at this path.
    ContextNamespace(String),
    /// The templates that every managed service shares are being rendered.
    RenderCommon,
    /// The templates of the managed engine are being rendered.
    RenderEngine,
    /// The chart that names the managed endpoint inside the cluster is being
    /// rendered into a directory of its own.
    RenderShim,
    /// The same chart is being rendered into the working directory.
    RenderShimInPlace,
    /// The provisioning tool is applying what was rendered.
    Terraform,
    /// The cluster's configuration file is being written for the tools.
    Kubeconfig,
    /// The engine's chart is being rendered. Here and below, the text is the
    /// path of the configuration file.
    RenderChart(String),
    /// The values that override the chart's are being rendered.
    RenderValues(String),
    /// The namespace is being created with its labels.
    Namespace(String),
    /// The release is being upgraded.
    Release(String),
    /// The pods are awaited.
    Readiness(String),
    /// The creation ended well.
    Succeeded,
    /// The creation ended with this error.
    Failed(EngineError),
}

pub enum CreateStageView {
    ContextKubeconfig,
    ContextNamespace(Seq<char>),
    RenderCommon,
    RenderEngine,
    RenderShim,
    RenderShimInPlace,
    Terraform,
    Kubeconfig,
    RenderChart(Seq<char>),
    RenderValues(Seq<char>),
    Namespace(Seq<char>),
    Release(Seq<char>),
    Readiness(Seq<char>),
    Succeeded,
    Failed(EngineErrorView),
}

impl View for CreateStage {
    type V = CreateStageView;

    open spec fn view(&self) -> CreateStageView {
        match self {
            CreateStage::ContextKubeconfig => CreateStageView::ContextKubeconfig,
            CreateStage::ContextNamespace(path) => CreateStageView::ContextNamespace(path@),
            CreateStage::RenderCommon => CreateStageView::RenderCommon,
            CreateStage::RenderEngine => CreateStageView::RenderEngine,
            CreateStage::RenderShim => CreateStageView::RenderShim,
            CreateStage::RenderShimInPlace => CreateStageView::RenderShimInPlace,
            CreateStage::Terraform => CreateStageView::Terraform,
            CreateStage::Kubeconfig => CreateStageView::Kubeconfig,
            CreateStage::RenderChart(path) => CreateStageView::RenderChart(path@),
            CreateStage::RenderValues(path) => CreateStageView::RenderValues(path@),
            CreateStage::Namespace(path) => CreateStageView::Namespace(path@),
            CreateStage::Release(path) => CreateStageView::Release(path@),
            CreateStage::Readiness(path) => CreateStageView::Readiness(path@),
            CreateStage::Succeeded => CreateStageView::Succeeded,
            CreateStage::Failed(error) => CreateStageView::Failed(error@),
        }
    }
}

/// A creation under way. `kubeconfig_path` is the path of the configuration
/// file that the templates are given, once one was written for them.
#[derive(Debug, PartialEq, Eq)]
pub struct CreateProgress {
    pub stage: CreateStage,
    pub kubeconfig_path: Option<String>,
}

pub struct CreateProgressView {
    pub stage: CreateStageView,
    pub kubeconfig_path: Option<Seq<char>>,
}

impl View for CreateProgress {
    type V = CreateProgressView;

    open spec fn view(&self) -> CreateProgressView {
        CreateProgressView {
            stage: self.stage@,
            kubeconfig_path: optional_text(self.kubeconfig_path),
        }
    }
}

impl CreateProgress {
    /// A creation of which nothing is done yet.
    pub fn new() -> (progress: CreateProgress)
        ensures
            progress@ == (CreateProgressView {
                stage: CreateStageView::ContextKubeconfig,
                kubeconfig_path: None,
            }),
    {
        CreateProgress { stage: CreateStage::ContextKubeconfig, kubeconfig_path: None }
    }
}

/// The environment variables that the tools are run with: the credentials of
/// the cluster's account.
pub open spec fn credentials_envs(kubernetes: &Kubernetes) -> Seq<(Seq<char>, Seq<char>)> {
    seq![
        ("AWS_ACCESS_KEY_ID"@, kubernetes.access_key_id@),
        ("AWS_SECRET_ACCESS_KEY"@, kubernetes.secret_access_key@),
    ]
}

/// The labels of a namespace whose resources expire: the time to live, in
/// seconds. A namespace whose resources stay has none.
pub open spec fn expiration_labels(seconds: Option<u32>) -> Option<Seq<(Seq<char>, Seq<char>)>> {
    match seconds {
        Some(seconds) => Some(seq![("ttl"@, decimal_digits(seconds as nat))]),
        None => None,
    }
}

fn aws_credentials_envs(kubernetes: &Kubernetes) -> (envs: Vec<(String, String)>)
    ensures
        pairs(envs) == credentials_envs(kubernetes),
{
    let mut envs: Vec<(String, String)> = Vec::new();
    envs.push((String::from_str("AWS_ACCESS_KEY_ID"), kubernetes.access_key_id.clone()));
    envs.push((String::from_str("AWS_SECRET_ACCESS_KEY"), kubernetes.secret_access_key.clone()));
    assert(pairs(envs) =~= credentials_envs(kubernetes));
    envs
}

fn namespace_labels(seconds: Option<u32>) -> (list: Option<Vec<LabelsContent>>)
    ensures
        labels(list) == expiration_labels(seconds),
{
    match seconds {
        Some(seconds) => {
            let mut list: Vec<LabelsContent> = Vec::new();
            list.push(
                LabelsContent { name: String::from_str("ttl"), value: unsigned_to_string(seconds) },
            );
            let list = Some(list);
            assert(labels(list)->0 =~= expiration_labels(Some(seconds))->0);
            list
        },
        None => None,
    }
}

impl MySQL {
    /// The call that writes the cluster's configuration file.
    pub open spec fn kubeconfig_command(
        &self,
        kubernetes: &Kubernetes,
        environment: &Environment,
    ) -> CommandView {
        CommandView::Kubeconfig {
            workspace_dir: self.workspace(),
            organization_id: environment.organization_id@,
            cluster_id: kubernetes.id@,
            access_key_id: kubernetes.access_key_id@,
            secret_access_key: kubernetes.secret_access_key@,
            region: kubernetes.region@,
        }
    }

    /// The call that creates the environment's namespace.
    pub open spec fn namespace_command(
        &self,
        kubernetes: &Kubernetes,
        environment: &Environment,
        kubeconfig: Seq<char>,
        namespace_labels: Option<Seq<(Seq<char>, Seq<char>)>>,
    ) -> CommandView {
        CommandView::CreateNamespace {
            kubeconfig,
            namespace: environment.namespace@,
            labels: namespace_labels,
            envs: credentials_envs(kubernetes),
        }
    }

    /// The call that renders the templates under `from_dir`, a directory of
    /// the library, into `to_dir`.
    pub open spec fn render_command(
        &self,
        kubernetes: &Kubernetes,
        environment: &Environment,
        from_dir: Seq<char>,
        to_dir: Seq<char>,
        kubeconfig_path: Option<Seq<char>>,
    ) -> CommandView {
        CommandView::Render {
            from_dir: self.context.lib_root_dir@ + from_dir,
            to_dir,
            context: self.rendering_entries(kubernetes, environment, kubeconfig_path),
        }
    }

    /// The sentence that reports pods which did not become ready.
    pub open spec fn not_started_message(&self) -> Seq<char> {
        "MySQL database "@ + self.name@ + " with id "@ + self.id@
            + " failed to start after several retries"@
    }

    /// The call that a creation awaits at each stage. Once the creation has
    /// ended, the call is to finish with its result.
    pub open spec fn create_command_model(
        &self,
        target: &DeploymentTarget,
        progress: CreateProgressView,
    ) -> CommandView {
        let kubernetes = &target.cluster();
        let environment = &target.surroundings();
        match progress.stage {
            CreateStageView::ContextKubeconfig => self.kubeconfig_command(kubernetes, environment),
            CreateStageView::ContextNamespace(path) => self.namespace_command(
                kubernetes,
                environment,
                path,
                None,
            ),
            CreateStageView::RenderCommon => self.render_command(
                kubernetes,
                environment,
                "/aws/services/common"@,
                self.workspace(),
                progress.kubeconfig_path,
            ),
            CreateStageView::RenderEngine => self.render_command(
                kubernetes,
                environment,
                "/aws/services/mysql"@,
                self.workspace(),
                progress.kubeconfig_path,
            ),
            CreateStageView::RenderShim => self.render_command(
                kubernetes,
                environment,
                "/aws/charts/external-name-svc"@,
                self.workspace() + "/external-name-svc"@,
                progress.kubeconfig_path,
            ),
            CreateStageView::RenderShimInPlace => self.render_command(
                kubernetes,
                environment,
                "/aws/charts/external-name-svc"@,
                self.workspace(),
                progress.kubeconfig_path,
            ),
            CreateStageView::Terraform => CommandView::TerraformApply {
                dir: self.workspace(),
                dry_run: self.context.dry_run_deploy,
            },
            CreateStageView::Kubeconfig => self.kubeconfig_command(kubernetes, environment),
            CreateStageView::RenderChart(_) => self.render_command(
                kubernetes,
                environment,
                "/common/services/mysql"@,
                self.workspace(),
                progress.kubeconfig_path,
            ),
            CreateStageView::RenderValues(_) => self.render_command(
                kubernetes,
                environment,
                "/common/chart_values/mysql"@,
                self.workspace(),
                progress.kubeconfig_path,
            ),
            CreateStageView::Namespace(path) => self.namespace_command(
                kubernetes,
                environment,
                path,
                expiration_labels(self.context.resource_expiration_in_seconds),
            ),
            CreateStageView::Release(path) => CommandView::HelmUpgrade {
                kubeconfig: path,
                namespace: environment.namespace@,
                release_name: release_name(self.id@),
                chart_dir: self.workspace(),
                timeout: Timeout::Default,
                envs: credentials_envs(kubernetes),
            },
            CreateStageView::Readiness(path) => CommandView::WaitPodReady {
                kubeconfig: path,
                namespace: environment.namespace@,
                selector: "app="@ + self.name@,
                envs: credentials_envs(kubernetes),
            },
            CreateStageView::Succeeded => CommandView::Finish(Ok(())),
            CreateStageView::Failed(error) => CommandView::Finish(Err(error)),
        }
    }

    fn kubeconfig_call(&self, kubernetes: &Kubernetes, environment: &Environment) -> (command:
        Command)
        ensures
            command@ == self.kubeconfig_command(kubernetes, environment),
    {
        Command::Kubeconfig {
            workspace_dir: self.workspace_directory(),
            organization_id: environment.organization_id.clone(),
            cluster_id: kubernetes.id.clone(),
            access_key_id: kubernetes.access_key_id.clone(),
            secret_access_key: kubernetes.secret_access_key.clone(),
            region: kubernetes.region.clone(),
        }
    }

    fn namespace_call(
        &self,
        kubernetes: &Kubernetes,
        environment: &Environment,
        kubeconfig: &String,
        list: Option<Vec<LabelsContent>>,
    ) -> (command: Command)
        ensures
            command@ == self.namespace_command(kubernetes, environment, kubeconfig@, labels(list)),
    {
        Command::CreateNamespace {
            kubeconfig: kubeconfig.clone(),
            namespace: environment.namespace.clone(),
            labels: list,
            envs: aws_credentials_envs(kubernetes),
        }
    }

    fn render_call(
        &self,
        kubernetes: &Kubernetes,
        environment: &Environment,
        from_dir: &str,
        to_dir: String,
        kubeconfig_path: &Option<String>,
    ) -> (command: Command)
        ensures
            command@ == self.render_command(
                kubernetes,
                environment,
                from_dir@,
                to_dir@,
                optional_text(*kubeconfig_path),
            ),
    {
        let context = match kubeconfig_path {
            Some(path) => self.tera_context(kubernetes, environment, Some(path.as_str())),
            None => self.tera_context(kubernetes, environment, None),
        };
        Command::Render {
            from_dir: joined(self.context.lib_root_dir(), from_dir),
            to_dir,
            context,
        }
    }

    /// The call that the creation awaits. The caller makes it and hands its
    /// outcome to `on_create`; when the call is `Finish`, the creation has
    /// ended with the result that it holds.
    pub fn create_command(&self, target: &DeploymentTarget, progress: &CreateProgress) -> (command:
        Command)
        ensures
            command@ == self.create_command_model(target, progress@),
    {
        let kubernetes = target.kubernetes();
        let environment = target.environment();
        match &progress.stage {
            CreateStage::ContextKubeconfig => self.kubeconfig_call(kubernetes, environment),
            CreateStage::ContextNamespace(path) => self.namespace_call(
                kubernetes,
                environment,
                path,
                None,
            ),
            CreateStage::RenderCommon => self.render_call(
                kubernetes,
                environment,
                "/aws/services/common",
                self.workspace_directory(),
                &progress.kubeconfig_path,
            ),
            CreateStage::RenderEngine => self.render_call(
                kubernetes,
                environment,
                "/aws/services/mysql",
                self.workspace_directory(),
                &progress.kubeconfig_path,
            ),
            CreateStage::RenderShim => {
                let mut to_dir = self.workspace_directory();
                to_dir.append("/external-name-svc");
                self.render_call(
                    kubernetes,
                    environment,
                    "/aws/charts/external-name-svc",
                    to_dir,
                    &progress.kubeconfig_path,
                )
            },
            CreateStage::RenderShimInPlace => self.render_call(
                kubernetes,
                environment,
                "/aws/charts/external-name-svc",
                self.workspace_directory(),
                &progress.kubeconfig_path,
            ),
            CreateStage::Terraform => Command::TerraformApply {
                dir: self.workspace_directory(),
                dry_run: self.context.is_dry_run_deploy(),
            },
            CreateStage::Kubeconfig => self.kubeconfig_call(kubernetes, environment),
            CreateStage::RenderChart(_) => self.render_call(
                kubernetes,
                environment,
                "/common/services/mysql",
                self.workspace_directory(),
                &progress.kubeconfig_path,
            ),
            CreateStage::RenderValues(_) => self.render_call(
                kubernetes,
                environment,
                "/common/chart_values/mysql",
                self.workspace_directory(),
                &progress.kubeconfig_path,
            ),
            CreateStage::Namespace(path) => self.namespace_call(
                kubernetes,
                environment,
                path,
                namespace_labels(self.context.resource_expiration_in_seconds()),
            ),
            CreateStage::Release(path) => Command::HelmUpgrade {
                kubeconfig: path.clone(),
                namespace: environment.namespace.clone(),
                release_name: self.helm_release_name(),
                chart_dir: self.workspace_directory(),
                timeout: Timeout::Default,
                envs: aws_credentials_envs(kubernetes),
            },
            CreateStage::Readiness(path) => Command::WaitPodReady {
                kubeconfig: path.clone(),
                namespace: environment.namespace.clone(),
                selector: joined("app=", self.name.as_str()),
                envs: aws_credentials_envs(kubernetes),
            },
            CreateStage::Succeeded => Command::Finish(Ok(())),
            CreateStage::Failed(error) => Command::Finish(Err(error.clone())),
        }
    }
}

impl MySQL {
    /// The stage that follows the making of the templates' context: the first
    /// rendering of the managed service, or the configuration file that the
    /// tools of the cluster need.
    pub open spec fn create_stage_after_context(managed: bool) -> CreateStageView {
        if managed {
            CreateStageView::RenderCommon
        } else {
            CreateStageView::Kubeconfig
        }
    }

    /// Where a creation goes from a call that reports nothing but its end:
    /// on to `next` where it succeeded, and to an internal error with the
    /// collaborator's message where it failed. Any other outcome does not
    /// answer the call and changes nothing.
    pub open spec fn create_after_call(
        &self,
        progress: CreateProgressView,
        outcome: OutcomeView,
        next: CreateStageView,
    ) -> CreateProgressView {
        match outcome {
            OutcomeView::Done => CreateProgressView { stage: next, ..progress },
            OutcomeView::Failed(message) => CreateProgressView {
                stage: CreateStageView::Failed(self.error(EngineErrorCause::Internal, message)),
                ..progress
            },
            _ => progress,
        }
    }

    /// Where a creation goes from the outcome of the call that it awaited.
    ///
    /// The templates' context comes first: a configuration file that could
    /// not be written for it is left out of it, and the namespace that is
    /// created for it may fail to be. From there, a managed service is
    /// rendered three times over, the shim twice, and applied. A workload in
    /// the cluster gets its configuration file, is rendered, chart first and
    /// values over it, gets its namespace, is released, and is awaited: a
    /// release whose history is empty or reports no success fails before any
    /// wait, and pods that are not all ready fail the creation. An outcome
    /// that does not answer the awaited call changes nothing, and neither
    /// does any outcome once the creation has ended.
    pub open spec fn create_next(
        &self,
        managed: bool,
        progress: CreateProgressView,
        outcome: OutcomeView,
    ) -> CreateProgressView {
        match progress.stage {
            CreateStageView::ContextKubeconfig => match outcome {
                OutcomeView::Path(path) => CreateProgressView {
                    stage: CreateStageView::ContextNamespace(path),
                    kubeconfig_path: Some(path),
                },
                OutcomeView::Failed(_) => CreateProgressView {
                    stage: Self::create_stage_after_context(managed),
                    ..progress
                },
                _ => progress,
            },
            CreateStageView::ContextNamespace(_) => match outcome {
                OutcomeView::Done | OutcomeView::Failed(_) => CreateProgressView {
                    stage: Self::create_stage_after_context(managed),
                    ..progress
                },
                _ => progress,
            },
            CreateStageView::RenderCommon => self.create_after_call(
                progress,
                outcome,
                CreateStageView::RenderEngine,
            ),
            CreateStageView::RenderEngine => self.create_after_call(
                progress,
                outcome,
                CreateStageView::RenderShim,
            ),
            CreateStageView::RenderShim => self.create_after_call(
                progress,
                outcome,
                CreateStageView::RenderShimInPlace,
            ),
            CreateStageView::RenderShimInPlace => self.create_after_call(
                progress,
                outcome,
                CreateStageView::Terraform,
            ),
            CreateStageView::Terraform => self.create_after_call(
                progress,
                outcome,
                CreateStageView::Succeeded,
            ),
            CreateStageView::Kubeconfig => match outcome {
                OutcomeView::Path(path) => CreateProgressView {
                    stage: CreateStageView::RenderChart(path),
                    ..progress
                },
                OutcomeView::Failed(message) => CreateProgressView {
                    stage: CreateStageView::Failed(
                        self.error(EngineErrorCause::Internal, message),
                    ),
                    ..progress
                },
                _ => progress,
            },
            CreateStageView::RenderChart(path) => self.create_after_call(
                progress,
                outcome,
                CreateStageView::RenderValues(path),
            ),
            CreateStageView::RenderValues(path) => self.create_after_call(
                progress,
                outcome,
                CreateStageView::Namespace(path),
            ),
            CreateStageView::Namespace(path) => self.create_after_call(
                progress,
                outcome,
                CreateStageView::Release(path),
            ),
            CreateStageView::Release(path) => match outcome {
                OutcomeView::History(Some(true)) => CreateProgressView {
                    stage: CreateStageView::Readiness(path),
                    ..progress
                },
                OutcomeView::History(_) => CreateProgressView {
                    stage: CreateStageView::Failed(
                        self.error(
                            EngineErrorCause::Internal,
                            Some("MySQL database fails to be deployed (before start)"@),
                        ),
                    ),
                    ..progress
                },
                OutcomeView::Failed(message) => CreateProgressView {
                    stage: CreateStageView::Failed(
                        self.error(EngineErrorCause::Internal, message),
                    ),
                    ..progress
                },
                _ => progress,
            },
            CreateStageView::Readiness(_) => match outcome {
                OutcomeView::Ready(Some(true)) => CreateProgressView {
                    stage: CreateStageView::Succeeded,
                    ..progress
                },
                OutcomeView::Ready(_) | OutcomeView::Failed(_) => CreateProgressView {
                    stage: CreateStageView::Failed(
                        self.error(EngineErrorCause::Internal, Some(self.not_started_message())),
                    ),
                    ..progress
                },
                _ => progress,
            },
            CreateStageView::Succeeded => progress,
            CreateStageView::Failed(_) => progress,
        }
    }

    fn internal_failure(&self, message: Option<String>) -> (error: EngineError)
        ensures
            error@ == self.error(EngineErrorCause::Internal, optional_text(message)),
    {
        EngineError::new(
            EngineErrorCause::Internal,
            self.engine_error_scope(),
            self.context.execution_id(),
            message,
        )
    }

    fn create_step(
        &self,
        awaited: CreateStage,
        kubeconfig_path: Option<String>,
        outcome: Outcome,
        next: CreateStage,
    ) -> (progress: CreateProgress)
        ensures
            progress@ == self.create_after_call(
                CreateProgressView {
                    stage: awaited@,
                    kubeconfig_path: optional_text(kubeconfig_path),
                },
                outcome@,
                next@,
            ),
    {
        match outcome {
            Outcome::Done => CreateProgress { stage: next, kubeconfig_path },
            Outcome::Failed(message) => CreateProgress {
                stage: CreateStage::Failed(self.internal_failure(message)),
                kubeconfig_path,
            },
            _ => CreateProgress { stage: awaited, kubeconfig_path },
        }
    }

    fn stage_after_context(target: &DeploymentTarget) -> (stage: CreateStage)
        ensures
            stage@ == Self::create_stage_after_context(target.is_managed()),
    {
        match target {
            DeploymentTarget::ManagedServices(_, _) => CreateStage::RenderCommon,
            DeploymentTarget::SelfHosted(_, _) => CreateStage::Kubeconfig,
        }
    }

    /// Takes a creation one step on: from the stage it stood at and the
    /// outcome of the call it awaited to the stage it stands at now.
    pub fn on_create(
        &self,
        target: &DeploymentTarget,
        progress: CreateProgress,
        outcome: Outcome,
    ) -> (next: CreateProgress)
        ensures
            next@ == self.create_next(target.is_managed(), progress@, outcome@),
    {
        let CreateProgress { stage, kubeconfig_path } = progress;
        match stage {
            CreateStage::ContextKubeconfig => match outcome {
                Outcome::Path(path) => {
                    let kubeconfig_path = Some(path.clone());
                    CreateProgress { stage: CreateStage::ContextNamespace(path), kubeconfig_path }
                },
                Outcome::Failed(_) => CreateProgress {
                    stage: Self::stage_after_context(target),
                    kubeconfig_path,
                },
                _ => CreateProgress { stage: CreateStage::ContextKubeconfig, kubeconfig_path },
            },
            CreateStage::ContextNamespace(path) => match outcome {
                Outcome::Done | Outcome::Failed(_) => CreateProgress {
                    stage: Self::stage_after_context(target),
                    kubeconfig_path,
                },
                _ => CreateProgress { stage: CreateStage::ContextNamespace(path), kubeconfig_path },
            },
            CreateStage::RenderCommon => self.create_step(
                CreateStage::RenderCommon,
                kubeconfig_path,
                outcome,
                CreateStage::RenderEngine,
            ),
            CreateStage::RenderEngine => self.create_step(
                CreateStage::RenderEngine,
                kubeconfig_path,
                outcome,
                CreateStage::RenderShim,
            ),
            CreateStage::RenderShim => self.create_step(
                CreateStage::RenderShim,
                kubeconfig_path,
                outcome,
                CreateStage::RenderShimInPlace,
            ),
            CreateStage::RenderShimInPlace => self.create_step(
                CreateStage::RenderShimInPlace,
                kubeconfig_path,
                outcome,
                CreateStage::Terraform,
            ),
            CreateStage::Terraform => self.create_step(
                CreateStage::Terraform,
                kubeconfig_path,
                outcome,
                CreateStage::Succeeded,
            ),
            CreateStage::Kubeconfig => match outcome {
                Outcome::Path(path) => CreateProgress {
                    stage: CreateStage::RenderChart(path),
                    kubeconfig_path,
                },
                Outcome::Failed(message) => CreateProgress {
                    stage: CreateStage::Failed(self.internal_failure(message)),
                    kubeconfig_path,
                },
                _ => CreateProgress { stage: CreateStage::Kubeconfig, kubeconfig_path },
            },
            CreateStage::RenderChart(path) => {
                let next = CreateStage::RenderValues(path.clone());
                self.create_step(CreateStage::RenderChart(path), kubeconfig_path, outcome, next)
            },
            CreateStage::RenderValues(path) => {
                let next = CreateStage::Namespace(path.clone());
                self.create_step(CreateStage::RenderValues(path), kubeconfig_path, outcome, next)
            },
            CreateStage::Namespace(path) => {
                let next = CreateStage::Release(path.clone());
                self.create_step(CreateStage::Namespace(path), kubeconfig_path, outcome, next)
            },
            CreateStage::Release(path) => match outcome {
                Outcome::History(Some(true)) => CreateProgress {
                    stage: CreateStage::Readiness(path),
                    kubeconfig_path,
                },
                Outcome::History(_) => CreateProgress {
                    stage: CreateStage::Failed(
                        self.engine_error(
                            EngineErrorCause::Internal,
                            String::from_str("MySQL database fails to be deployed (before start)"),
                        ),
                    ),
                    kubeconfig_path,
                },
                Outcome::Failed(message) => CreateProgress {
                    stage: CreateStage::Failed(self.internal_failure(message)),
                    kubeconfig_path,
                },
                _ => CreateProgress { stage: CreateStage::Release(path), kubeconfig_path },
            },
            CreateStage::Readiness(path) => match outcome {
                Outcome::Ready(Some(true)) => CreateProgress {
                    stage: CreateStage::Succeeded,
                    kubeconfig_path,
                },
                Outcome::Ready(_) | Outcome::Failed(_) => {
                    let mut message = String::from_str("MySQL database ");
                    message.append(self.name.as_str());
                    message.append(" with id ");
                    message.append(self.id.as_str());
                    message.append(" failed to start after several retries");
                    CreateProgress {
                        stage: CreateStage::Failed(
                            self.engine_error(EngineErrorCause::Internal, message),
                        ),
                        kubeconfig_path,
                    }
                },
                _ => CreateProgress { stage: CreateStage::Readiness(path), kubeconfig_path },
            },
            CreateStage::Succeeded => CreateProgress {
                stage: CreateStage::Succeeded,
                kubeconfig_path,
            },
            CreateStage::Failed(error) => CreateProgress {
                stage: CreateStage::Failed(error),
                kubeconfig_path,
            },
        }
    }

    /// Nothing is checked after a creation yet.
    pub fn on_create_check(&self) -> (checked: Result<(), EngineError>)
        ensures
            checked is Ok,
    {
        Ok(())
    }

    /// A failed creation is reported and nothing is undone.
    pub fn on_create_error(&self, _target: &DeploymentTarget) -> (handled: Result<(), EngineError>)
        ensures
            handled is Ok,
    {
        Ok(())
    }

    /// A pause is accepted and changes nothing.
    pub fn on_pause(&self, _target: &DeploymentTarget) -> (paused: Result<(), EngineError>)
        ensures
            paused is Ok,
    {
        Ok(())
    }

    pub fn on_pause_check(&self) -> (checked: Result<(), EngineError>)
        ensures
            checked is Ok,
    {
        Ok(())
    }

    pub fn on_pause_error(&self, _target: &DeploymentTarget) -> (handled: Result<(), EngineError>)
        ensures
            handled is Ok,
    {
        Ok(())
    }
}

/// Where a deletion stands: the call that is awaited.
#[derive(Debug, PartialEq, Eq)]
pub enum DeleteStage {
    /// The cluster's configuration file is being written for the templates.
    ContextKubeconfig,
    /// The namespace is being created, without labels, with the
    /// configuration file at this path.
    ContextNamespace(String),
    /// The templates that every managed service shares are being rendered.
    RenderCommon,
    /// The templates of the managed engine are being rendered.
    RenderEngine,
    /// The chart that names the managed endpoint inside the cluster is being
    /// rendered into a directory of its own.
    RenderShim,
    /// The same chart is being rendered into the working directory.
    RenderShimInPlace,
    /// The provisioning tool is destroying what was rendered.
    Destroy,
    /// The secret that holds the remote state is being removed.
    StateSecret,
    /// The release is being uninstalled.
    Cleanup,
    /// The deletion ended well.
    Succeeded,
    /// The deletion ended with this error.
    Failed(EngineError),
}

pub enum DeleteStageView {
    ContextKubeconfig,
    ContextNamespace(Seq<char>),
    RenderCommon,
    RenderEngine,
    RenderShim,
    RenderShimInPlace,
    Destroy,
    StateSecret,
    Cleanup,
    Succeeded,
    Failed(EngineErrorView),
}

impl View for DeleteStage {
    type V = DeleteStageView;

    open spec fn view(&self) -> DeleteStageView {
        match self {
            DeleteStage::ContextKubeconfig => DeleteStageView::ContextKubeconfig,
            DeleteStage::ContextNamespace(path) => DeleteStageView::ContextNamespace(path@),
            DeleteStage::RenderCommon => DeleteStageView::RenderCommon,
            DeleteStage::RenderEngine => DeleteStageView::RenderEngine,
            DeleteStage::RenderShim => DeleteStageView::RenderShim,
            DeleteStage::RenderShimInPlace => DeleteStageView::RenderShimInPlace,
            DeleteStage::Destroy => DeleteStageView::Destroy,
            DeleteStage::StateSecret => DeleteStageView::StateSecret,
            DeleteStage::Cleanup => DeleteStageView::Cleanup,
            DeleteStage::Succeeded => DeleteStageView::Succeeded,
            DeleteStage::Failed(error) => DeleteStageView::Failed(error@),
        }
    }
}

/// A deletion under way. `kubeconfig_path` is the path of the configuration
/// file that the templates are given, once one was written for them.
#[derive(Debug, PartialEq, Eq)]
pub struct DeleteProgress {
    pub stage: DeleteStage,
    pub kubeconfig_path: Option<String>,
}

pub struct DeleteProgressView {
    pub stage: DeleteStageView,
    pub kubeconfig_path: Option<Seq<char>>,
}

impl View for DeleteProgress {
    type V = DeleteProgressView;

    open spec fn view(&self) -> DeleteProgressView {
        DeleteProgressView {
            stage: self.stage@,
            kubeconfig_path: optional_text(self.kubeconfig_path),
        }
    }
}

impl DeleteProgress {
    /// The first stage of a deletion: a managed service starts with the
    /// templates' context, a workload in the cluster with its release.
    pub open spec fn start(managed: bool) -> DeleteProgressView {
        DeleteProgressView {
            stage: if managed {
                DeleteStageView::ContextKubeconfig
            } else {
                DeleteStageView::Cleanup
            },
            kubeconfig_path: None,
        }
    }

    /// A deletion of which nothing is done yet.
    pub fn new(target: &DeploymentTarget) -> (progress: DeleteProgress)
        ensures
            progress@ == Self::start(target.is_managed()),
    {
        match target {
            DeploymentTarget::ManagedServices(_, _) => DeleteProgress {
                stage: DeleteStage::ContextKubeconfig,
                kubeconfig_path: None,
            },
            DeploymentTarget::SelfHosted(_, _) => DeleteProgress {
                stage: DeleteStage::Cleanup,
                kubeconfig_path: None,
            },
        }
    }
}

/// The text of an optional message: nothing where there is none.
pub open spec fn message_or_empty(message: Option<Seq<char>>) -> Seq<char> {
    match message {
        Some(text) => text,
        None => Seq::empty(),
    }
}

impl MySQL {
    /// The call that a deletion awaits at each stage. Once the deletion has
    /// ended, the call is to finish with its result.
    pub open spec fn delete_command_model(
        &self,
        target: &DeploymentTarget,
        progress: DeleteProgressView,
    ) -> CommandView {
        let kubernetes = &target.cluster();
        let environment = &target.surroundings();
        match progress.stage {
            DeleteStageView::ContextKubeconfig => self.kubeconfig_command(kubernetes, environment),
            DeleteStageView::ContextNamespace(path) => self.namespace_command(
                kubernetes,
                environment,
                path,
                None,
            ),
            DeleteStageView::RenderCommon => self.render_command(
                kubernetes,
                environment,
                "/aws/services/common"@,
                self.workspace(),
                progress.kubeconfig_path,
            ),
            DeleteStageView::RenderEngine => self.render_command(
                kubernetes,
                environment,
                "/aws/services/mysql"@,
                self.workspace(),
                progress.kubeconfig_path,
            ),
            DeleteStageView::RenderShim => self.render_command(
                kubernetes,
                environment,
                "/aws/charts/external-name-svc"@,
                self.workspace() + "/external-name-svc"@,
                progress.kubeconfig_path,
            ),
            DeleteStageView::RenderShimInPlace => self.render_command(
                kubernetes,
                environment,
                "/aws/charts/external-name-svc"@,
                self.workspace(),
                progress.kubeconfig_path,
            ),
            DeleteStageView::Destroy => CommandView::TerraformDestroy { dir: self.workspace() },
            DeleteStageView::StateSecret => CommandView::DeleteStateSecret {
                state_name: tfstate_name(self.id@),
                workspace_dir: self.workspace(),
            },
            DeleteStageView::Cleanup => CommandView::HelmCleanup {
                workspace_dir: self.workspace(),
                release_name: release_name(self.id@),
            },
            DeleteStageView::Succeeded => CommandView::Finish(Ok(())),
            DeleteStageView::Failed(error) => CommandView::Finish(Err(error)),
        }
    }

    /// Where a deletion goes from a call that reports nothing but its end:
    /// on to `next` where it succeeded, and to an internal error with the
    /// collaborator's message where it failed. Any other outcome does not
    /// answer the call and changes nothing.
    pub open spec fn delete_after_call(
        &self,
        progress: DeleteProgressView,
        outcome: OutcomeView,
        next: DeleteStageView,
    ) -> DeleteProgressView {
        match outcome {
            OutcomeView::Done => DeleteProgressView { stage: next, ..progress },
            OutcomeView::Failed(message) => DeleteProgressView {
                stage: DeleteStageView::Failed(self.error(EngineErrorCause::Internal, message)),
                ..progress
            },
            _ => progress,
        }
    }

    /// Where a deletion goes from the outcome of the call that it awaited.
    ///
    /// A managed service is rendered as for its creation, the shim twice,
    /// and destroyed; a failure to destroy it is reported with the tool's
    /// message, and after its destruction the secret that holds its remote
    /// state is removed, whether that works or not. A workload in the
    /// cluster has its release uninstalled. An outcome that does not answer
    /// the awaited call changes nothing, and neither does any outcome once
    /// the deletion has ended.
    pub open spec fn delete_next(
        &self,
        progress: DeleteProgressView,
        outcome: OutcomeView,
    ) -> DeleteProgressView {
        match progress.stage {
            DeleteStageView::ContextKubeconfig => match outcome {
                OutcomeView::Path(path) => DeleteProgressView {
                    stage: DeleteStageView::ContextNamespace(path),
                    kubeconfig_path: Some(path),
                },
                OutcomeView::Failed(_) => DeleteProgressView {
                    stage: DeleteStageView::RenderCommon,
                    ..progress
                },
                _ => progress,
            },
            DeleteStageView::ContextNamespace(_) => match outcome {
                OutcomeView::Done | OutcomeView::Failed(_) => DeleteProgressView {
                    stage: DeleteStageView::RenderCommon,
                    ..progress
                },
                _ => progress,
            },
            DeleteStageView::RenderCommon => self.delete_after_call(
                progress,
                outcome,
                DeleteStageView::RenderEngine,
            ),
            DeleteStageView::RenderEngine => self.delete_after_call(
                progress,
                outcome,
                DeleteStageView::RenderShim,
            ),
            DeleteStageView::RenderShim => self.delete_after_call(
                progress,
                outcome,
                DeleteStageView::RenderShimInPlace,
            ),
            DeleteStageView::RenderShimInPlace => self.delete_after_call(
                progress,
                outcome,
                DeleteStageView::Destroy,
            ),
            DeleteStageView::Destroy => match outcome {
                OutcomeView::Done => DeleteProgressView {
                    stage: DeleteStageView::StateSecret,
                    ..progress
                },
                OutcomeView::Failed(message) => DeleteProgressView {
                    stage: DeleteStageView::Failed(
                        self.error(
                            EngineErrorCause::Internal,
                            Some(
                                "Error while destroying infrastructure "@ + message_or_empty(
                                    message,
                                ),
                            ),
                        ),
                    ),
                    ..progress
                },
                _ => progress,
            },
            DeleteStageView::StateSecret => match outcome {
                OutcomeView::Done | OutcomeView::Failed(_) => DeleteProgressView {
                    stage: DeleteStageView::Succeeded,
                    ..progress
                },
                _ => progress,
            },
            DeleteStageView::Cleanup => self.delete_after_call(
                progress,
                outcome,
                DeleteStageView::Succeeded,
            ),
            DeleteStageView::Succeeded => progress,
            DeleteStageView::Failed(_) => progress,
        }
    }

    /// The call that the deletion awaits. The caller makes it and hands its
    /// outcome to `delete`; when the call is `Finish`, the deletion has ended
    /// with the result that it holds.
    pub fn delete_command(&self, target: &DeploymentTarget, progress: &DeleteProgress) -> (command:
        Command)
        ensures
            command@ == self.delete_command_model(target, progress@),
    {
        let kubernetes = target.kubernetes();
        let environment = target.environment();
        match &progress.stage {
            DeleteStage::ContextKubeconfig => self.kubeconfig_call(kubernetes, environment),
            DeleteStage::ContextNamespace(path) => self.namespace_call(
                kubernetes,
                environment,
                path,
                None,
            ),
            DeleteStage::RenderCommon => self.render_call(
                kubernetes,
                environment,
                "/aws/services/common",
                self.workspace_directory(),
                &progress.kubeconfig_path,
            ),
            DeleteStage::RenderEngine => self.render_call(
                kubernetes,
                environment,
                "/aws/services/mysql",
                self.workspace_directory(),
                &progress.kubeconfig_path,
            ),
            DeleteStage::RenderShim => {
                let mut to_dir = self.workspace_directory();
                to_dir.append("/external-name-svc");
                self.render_call(
                    kubernetes,
                    environment,
                    "/aws/charts/external-name-svc",
                    to_dir,
                    &progress.kubeconfig_path,
                )
            },
            DeleteStage::RenderShimInPlace => self.render_call(
                kubernetes,
                environment,
                "/aws/charts/external-name-svc",
                self.workspace_directory(),
                &progress.kubeconfig_path,
            ),
            DeleteStage::Destroy => Command::TerraformDestroy { dir: self.workspace_directory() },
            DeleteStage::StateSecret => Command::DeleteStateSecret {
                state_name: get_tfstate_name(self.id()),
                workspace_dir: self.workspace_directory(),
            },
            DeleteStage::Cleanup => Command::HelmCleanup {
                workspace_dir: self.workspace_directory(),
                release_name: self.helm_release_name(),
            },
            DeleteStage::Succeeded => Command::Finish(Ok(())),
            DeleteStage::Failed(error) => Command::Finish(Err(error.clone())),
        }
    }

    fn delete_step(
        &self,
        awaited: DeleteStage,
        kubeconfig_path: Option<String>,
        outcome: Outcome,
        next: DeleteStage,
    ) -> (progress: DeleteProgress)
        ensures
            progress@ == self.delete_after_call(
                DeleteProgressView {
                    stage: awaited@,
                    kubeconfig_path: optional_text(kubeconfig_path),
                },
                outcome@,
                next@,
            ),
    {
        match outcome {
            Outcome::Done => DeleteProgress { stage: next, kubeconfig_path },
            Outcome::Failed(message) => DeleteProgress {
                stage: DeleteStage::Failed(self.internal_failure(message)),
                kubeconfig_path,
            },
            _ => DeleteProgress { stage: awaited, kubeconfig_path },
        }
    }

    /// Takes a deletion one step on: from the stage it stood at and the
    /// outcome of the call it awaited to the stage it stands at now.
    pub fn delete(&self, progress: DeleteProgress, outcome: Outcome) -> (next: DeleteProgress)
        ensures
            next@ == self.delete_next(progress@, outcome@),
    {
        let DeleteProgress { stage, kubeconfig_path } = progress;
        match stage {
            DeleteStage::ContextKubeconfig => match outcome {
                Outcome::Path(path) => {
                    let kubeconfig_path = Some(path.clone());
                    DeleteProgress { stage: DeleteStage::ContextNamespace(path), kubeconfig_path }
                },
                Outcome::Failed(_) => DeleteProgress {
                    stage: DeleteStage::RenderCommon,
                    kubeconfig_path,
                },
                _ => DeleteProgress { stage: DeleteStage::ContextKubeconfig, kubeconfig_path },
            },
            DeleteStage::ContextNamespace(path) => match outcome {
                Outcome::Done | Outcome::Failed(_) => DeleteProgress {
                    stage: DeleteStage::RenderCommon,
                    kubeconfig_path,
                },
                _ => DeleteProgress { stage: DeleteStage::ContextNamespace(path), kubeconfig_path },
            },
            DeleteStage::RenderCommon => self.delete_step(
                DeleteStage::RenderCommon,
                kubeconfig_path,
                outcome,
                DeleteStage::RenderEngine,
            ),
            DeleteStage::RenderEngine => self.delete_step(
                DeleteStage::RenderEngine,
                kubeconfig_path,
                outcome,
                DeleteStage::RenderShim,
            ),
            DeleteStage::RenderShim => self.delete_step(
                DeleteStage::RenderShim,
                kubeconfig_path,
                outcome,
                DeleteStage::RenderShimInPlace,
            ),
            DeleteStage::RenderShimInPlace => self.delete_step(
                DeleteStage::RenderShimInPlace,
                kubeconfig_path,
                outcome,
                DeleteStage::Destroy,
            ),
            DeleteStage::Destroy => match outcome {
                Outcome::Done => DeleteProgress {
                    stage: DeleteStage::StateSecret,
                    kubeconfig_path,
                },
                Outcome::Failed(reason) => {
                    let mut message = String::from_str("Error while destroying infrastructure ");
                    match &reason {
                        Some(text) => {
                            message.append(text.as_str());
                        },
                        None => {
                            assert(message@ =~= "Error while destroying infrastructure "@
                                + Seq::<char>::empty());
                        },
                    }
                    DeleteProgress {
                        stage: DeleteStage::Failed(
                            self.engine_error(EngineErrorCause::Internal, message),
                        ),
                        kubeconfig_path,
                    }
                },
                _ => DeleteProgress { stage: DeleteStage::Destroy, kubeconfig_path },
            },
            DeleteStage::StateSecret => match outcome {
                Outcome::Done | Outcome::Failed(_) => DeleteProgress {
                    stage: DeleteStage::Succeeded,
                    kubeconfig_path,
                },
                _ => DeleteProgress { stage: DeleteStage::StateSecret, kubeconfig_path },
            },
            DeleteStage::Cleanup => self.delete_step(
                DeleteStage::Cleanup,
                kubeconfig_path,
                outcome,
                DeleteStage::Succeeded,
            ),
            DeleteStage::Succeeded => DeleteProgress {
                stage: DeleteStage::Succeeded,
                kubeconfig_path,
            },
            DeleteStage::Failed(error) => DeleteProgress {
                stage: DeleteStage::Failed(error),
                kubeconfig_path,
            },
        }
    }

    /// Takes a deletion one step on, as `delete` does.
    pub fn on_delete(&self, progress: DeleteProgress, outcome: Outcome) -> (next: DeleteProgress)
        ensures
            next@ == self.delete_next(progress@, outcome@),
    {
        self.delete(progress, outcome)
    }

    /// Nothing is checked after a deletion yet.
    pub fn on_delete_check(&self) -> (checked: Result<(), EngineError>)
        ensures
            checked is Ok,
    {
        Ok(())
    }

    /// A failed deletion is reported and nothing is undone.
    pub fn on_delete_error(&self, _target: &DeploymentTarget) -> (handled: Result<(), EngineError>)
        ensures
            handled is Ok,
    {
        Ok(())
    }

    /// The sentence that turns down a hook without behaviour.
    pub open spec fn not_implemented_message(hook: Seq<char>) -> Seq<char> {
        "AWS.MySQL."@ + hook + "() is not implemented"@
    }

    /// Whether `result` turns the hook down as one that has no behaviour yet.
    pub open spec fn is_not_implemented(
        &self,
        result: Result<(), EngineError>,
        hook: Seq<char>,
    ) -> bool {
        match result {
            Ok(_) => false,
            Err(error) => error@ == self.error(
                EngineErrorCause::NotImplemented,
                Some(Self::not_implemented_message(hook)),
            ),
        }
    }

    fn not_implemented(&self, hook: &str) -> (result: Result<(), EngineError>)
        ensures
            self.is_not_implemented(result, hook@),
    {
        let mut message = String::from_str("AWS.MySQL.");
        message.append(hook);
        message.append("() is not implemented");
        Err(self.engine_error(EngineErrorCause::NotImplemented, message))
    }
}

/// The hooks below have no behaviour yet. Each turns the call down with an
/// error whose cause is `NotImplemented`; none of them does anything else.
impl MySQL {
    pub fn on_clone(&self, _target: &DeploymentTarget) -> (result: Result<(), EngineError>)
        ensures
            self.is_not_implemented(result, "on_clone"@),
    {
        self.not_implemented("on_clone")
    }

    pub fn on_clone_check(&self) -> (result: Result<(), EngineError>)
        ensures
            self.is_not_implemented(result, "on_clone_check"@),
    {
        self.not_implemented("on_clone_check")
    }

    pub fn on_clone_error(&self, _target: &DeploymentTarget) -> (result: Result<(), EngineError>)
        ensures
            self.is_not_implemented(result, "on_clone_error"@),
    {
        self.not_implemented("on_clone_error")
    }

    pub fn on_upgrade(&self, _target: &DeploymentTarget) -> (result: Result<(), EngineError>)
        ensures
            self.is_not_implemented(result, "on_upgrade"@),
    {
        self.not_implemented("on_upgrade")
    }

    pub fn on_upgrade_check(&self) -> (result: Result<(), EngineError>)
        ensures
            self.is_not_implemented(result, "on_upgrade_check"@),
    {
        self.not_implemented("on_upgrade_check")
    }

    pub fn on_upgrade_error(&self, _target: &DeploymentTarget) -> (result: Result<(), EngineError>)
        ensures
            self.is_not_implemented(result, "on_upgrade_error"@),
    {
        self.not_implemented("on_upgrade_error")
    }

    pub fn on_downgrade(&self, _target: &DeploymentTarget) -> (result: Result<(), EngineError>)
        ensures
            self.is_not_implemented(result, "on_downgrade"@),
    {
        self.not_implemented("on_downgrade")
    }

    pub fn on_downgrade_check(&self) -> (result: Result<(), EngineError>)
        ensures
            self.is_not_implemented(result, "on_downgrade_check"@),
    {
        self.not_implemented("on_downgrade_check")
    }

    pub fn on_downgrade_error(&self, _target: &DeploymentTarget) -> (result: Result<(), EngineError>)
        ensures
            self.is_not_implemented(result, "on_downgrade_error"@),
    {
        self.not_implemented("on_downgrade_error")
    }

    pub fn on_backup(&self, _target: &DeploymentTarget) -> (result: Result<(), EngineError>)
        ensures
            self.is_not_implemented(result, "on_backup"@),
    {
        self.not_implemented("on_backup")
    }

    pub fn on_backup_check(&self) -> (result: Result<(), EngineError>)
        ensures
            self.is_not_implemented(result, "on_backup_check"@),
    {
        self.not_implemented("on_backup_check")
    }

    pub fn on_backup_error(&self, _target: &DeploymentTarget) -> (result: Result<(), EngineError>)
        ensures
            self.is_not_implemented(result, "on_backup_error"@),
    {
        self.not_implemented("on_backup_error")
    }

    pub fn on_restore(&self, _target: &DeploymentTarget) -> (result: Result<(), EngineError>)
        ensures
            self.is_not_implemented(result, "on_restore"@),
    {
        self.not_implemented("on_restore")
    }

    pub fn on_restore_check(&self) -> (result: Result<(), EngineError>)
        ensures
            self.is_not_implemented(result, "on_restore_check"@),
    {
        self.not_implemented("on_restore_check")
    }

    pub fn on_restore_error(&self, _target: &DeploymentTarget) -> (result: Result<(), EngineError>)
        ensures
            self.is_not_implemented(result, "on_restore_error"@),
    {
        self.not_implemented("on_restore_error")
    }
}

} // verus!
