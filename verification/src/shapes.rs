//! The two record shapes this client queries: a virtual machine's
//! configuration snapshot and its runtime status.  Each shape is a data
//! table of descriptors; one marshalling routine serves both, so extending a
//! record means adding a descriptor and a field, never new fetch code.

use vstd::prelude::*;
use vstd::string::StringExecFns;

use crate::cursor::Cursor;
use crate::marshal::build_fields;
use crate::marshal::defaulted;
use crate::marshal::field_text;
use crate::marshal::lemma_marshal_acc_characterized;
use crate::marshal::marshal_fields;
use crate::marshal::DescView;
use crate::marshal::Descriptor;
use crate::outcome::BuildError;
use crate::outcome::ErrorView;
use crate::outcome::Policy;
use crate::query::build_query;
use crate::query::query_text;
use crate::row::Row;

verus! {

/// A descriptor that tolerates a missing or unrenderable attribute.
pub open spec fn tolerant_view(name: Seq<char>) -> DescView {
    DescView { name, policy: Policy::UseDefault }
}

/// One tolerant descriptor of the given attribute name.
fn tolerant(name: &str) -> (d: Descriptor)
    ensures
        d@ == tolerant_view(name@),
{
    Descriptor { name: String::from_str(name), policy: Policy::UseDefault }
}

/// A record kind that one row of a provider query marshals into.
pub trait WmiRowConstructable: Sized {
    /// The record's shape: which attribute fills each field, in field order,
    /// and each field's recovery policy.
    spec fn shape() -> Seq<DescView>;

    /// The record's fields as text, in shape order, defaults included.
    spec fn field_texts(&self) -> Seq<Seq<char>>;

    /// The provider class this record kind is queried from.
    spec fn wmi_class() -> Seq<char>;

    /// The descriptor table that drives the marshaller for this record kind.
    fn descriptors() -> (r: Vec<Descriptor>)
        ensures
            r.deep_view() == Self::shape(),
    ;

    /// Assembles one record of this kind from its fields, in shape order:
    /// each present field keeps its text, each defaulted field becomes empty
    /// text.
    fn from_fields(fields: Vec<Option<String>>) -> (r: Self)
        requires
            fields@.len() == Self::shape().len(),
        ensures
            r.field_texts() == fields.deep_view().map_values(|f: Option<Seq<char>>| defaulted(f)),
    ;

    /// Marshals the given row into one record of this kind, through the
    /// shape's descriptor table.  Every raw value fetched is released before
    /// the call returns.
    fn from_row(row: &mut Row) -> (r: Result<Self, BuildError>)
        requires
            old(row)@.fetched + Self::shape().len() <= usize::MAX,
            old(row)@.released <= old(row)@.fetched,
        ensures
            final(row)@.attrs == old(row)@.attrs,
            final(row)@.fault == old(row)@.fault,
            final(row)@.fetched <= old(row)@.fetched + Self::shape().len(),
            final(row)@.fetched - final(row)@.released == old(row)@.fetched - old(row)@.released,
            match r {
                Ok(rec) => marshal_fields(old(row)@, Self::shape()) matches Ok(fs)
                    && rec.field_texts() == fs.map_values(|f: Option<Seq<char>>| defaulted(f)),
                Err(e) => marshal_fields(old(row)@, Self::shape()) == Err::<
                    Seq<Option<Seq<char>>>,
                    ErrorView,
                >(e@),
            },
    ;

    /// The query selecting this record kind's single row for the given name
    /// key, with the key escaped.
    fn query_one(key: &str) -> (q: String)
        ensures
            q@ == query_text(Self::wmi_class(), key@),
    ;
}

/// The configuration snapshot of one virtual machine, as a fully detached
/// value: text fields only, empty where the provider had nothing renderable.
#[derive(Clone, Debug)]
pub struct HyperVVmSettings {
    pub virtual_system_identifier: String,
    pub configuration_data_root: String,
    pub configuration_file: String,
    pub firmware_file: String,
    pub firmware_parameters: String,
    pub guest_state_data_root: String,
    pub guest_state_file: String,
    pub guest_state_isolation_enabled: String,
    pub guest_state_isolation_type: String,
    pub is_saved: String,
    pub virtual_system_sub_type: String,
    pub secure_boot_enabled: String,
    pub turn_off_on_guest_restart: String,
}

impl WmiRowConstructable for HyperVVmSettings {
    open spec fn shape() -> Seq<DescView> {
        seq![
            tolerant_view("VirtualSystemIdentifier"@),
            tolerant_view("ConfigurationDataRoot"@),
            tolerant_view("ConfigurationFile"@),
            tolerant_view("FirmwareFile"@),
            tolerant_view("FirmwareParameters"@),
            tolerant_view("GuestStateDataRoot"@),
            tolerant_view("GuestStateFile"@),
            tolerant_view("GuestStateIsolationEnabled"@),
            tolerant_view("GuestStateIsolationType"@),
            tolerant_view("IsSaved"@),
            tolerant_view("VirtualSystemSubType"@),
            tolerant_view("SecureBootEnabled"@),
            tolerant_view("TurnOffOnGuestRestart"@),
        ]
    }

    open spec fn field_texts(&self) -> Seq<Seq<char>> {
        seq![
            self.virtual_system_identifier@,
            self.configuration_data_root@,
            self.configuration_file@,
            self.firmware_file@,
            self.firmware_parameters@,
            self.guest_state_data_root@,
            self.guest_state_file@,
            self.guest_state_isolation_enabled@,
            self.guest_state_isolation_type@,
            self.is_saved@,
            self.virtual_system_sub_type@,
            self.secure_boot_enabled@,
            self.turn_off_on_guest_restart@,
        ]
    }

    open spec fn wmi_class() -> Seq<char> {
        "Msvm_VirtualSystemSettingData"@
    }

    fn descriptors() -> (r: Vec<Descriptor>) {
        let mut r: Vec<Descriptor> = Vec::new();
        r.push(tolerant("VirtualSystemIdentifier"));
        r.push(tolerant("ConfigurationDataRoot"));
        r.push(tolerant("ConfigurationFile"));
        r.push(tolerant("FirmwareFile"));
        r.push(tolerant("FirmwareParameters"));
        r.push(tolerant("GuestStateDataRoot"));
        r.push(tolerant("GuestStateFile"));
        r.push(tolerant("GuestStateIsolationEnabled"));
        r.push(tolerant("GuestStateIsolationType"));
        r.push(tolerant("IsSaved"));
        r.push(tolerant("VirtualSystemSubType"));
        r.push(tolerant("SecureBootEnabled"));
        r.push(tolerant("TurnOffOnGuestRestart"));
        proof {
            assert(r.deep_view() =~= Self::shape());
        }
        r
    }

    fn from_fields(fields: Vec<Option<String>>) -> (r: HyperVVmSettings) {
        let rec = HyperVVmSettings {
            virtual_system_identifier: field_text(&fields, 0),
            configuration_data_root: field_text(&fields, 1),
            configuration_file: field_text(&fields, 2),
            firmware_file: field_text(&fields, 3),
            firmware_parameters: field_text(&fields, 4),
            guest_state_data_root: field_text(&fields, 5),
            guest_state_file: field_text(&fields, 6),
            guest_state_isolation_enabled: field_text(&fields, 7),
            guest_state_isolation_type: field_text(&fields, 8),
            is_saved: field_text(&fields, 9),
            virtual_system_sub_type: field_text(&fields, 10),
            secure_boot_enabled: field_text(&fields, 11),
            turn_off_on_guest_restart: field_text(&fields, 12),
        };
        proof {
            assert(rec.field_texts() =~= fields.deep_view().map_values(
                |f: Option<Seq<char>>| defaulted(f),
            ));
        }
        rec
    }

    fn from_row(row: &mut Row) -> (r: Result<HyperVVmSettings, BuildError>) {
        let descs = Self::descriptors();
        let fields = match build_fields(row, &descs) {
            Ok(f) => f,
            Err(e) => {
                return Err(e);
            },
        };
        proof {
            lemma_marshal_acc_characterized(old(row)@, Self::shape(), 0, Seq::empty());
        }
        Ok(Self::from_fields(fields))
    }

    fn query_one(key: &str) -> (q: String) {
        build_query("Msvm_VirtualSystemSettingData", key)
    }
}

/// The runtime status of one virtual machine, as a fully detached value:
/// text fields only, empty where the provider had nothing renderable.
#[derive(Clone, Debug)]
pub struct HyperVVmStatus {
    pub available_requested_states: String,
    pub caption: String,
    pub communication_status: String,
    pub creation_class_name: String,
    pub dedicated: String,
    pub description: String,
    pub detailed_status: String,
    pub element_name: String,
    pub enabled_default: String,
    pub enabled_state: String,
    pub enhanced_session_mode_state: String,
    pub failed_over_replication_type: String,
    pub health_state: String,
    pub hw_threads_per_core_realized: String,
    pub identifying_descriptions: String,
    pub install_date: String,
    pub instance_id: String,
    pub last_application_consistent_replication_time: String,
    pub last_replication_time: String,
    pub last_replication_type: String,
    pub last_successful_backup_time: String,
    pub name: String,
    pub name_format: String,
    pub number_of_numa_nodes: String,
    pub on_time_in_milliseconds: String,
    pub operating_status: String,
    pub operational_status: String,
    pub other_dedicated_descriptions: String,
    pub other_enabled_state: String,
    pub other_identifying_info: String,
    pub power_management_capabilities: String,
    pub primary_owner_contact: String,
    pub primary_owner_name: String,
    pub primary_status: String,
    pub process_id: String,
    pub replication_health: String,
    pub replication_mode: String,
    pub replication_state: String,
    pub requested_state: String,
    pub reset_capability: String,
    pub roles: String,
    pub status: String,
    pub status_descriptions: String,
    pub time_of_last_configuration_change: String,
    pub time_of_last_state_change: String,
    pub transitioning_to_state: String,
}

impl WmiRowConstructable for HyperVVmStatus {
    open spec fn shape() -> Seq<DescView> {
        seq![
            tolerant_view("AvailableRequestedStates"@),
            tolerant_view("Caption"@),
            tolerant_view("CommunicationStatus"@),
            tolerant_view("CreationClassName"@),
            tolerant_view("Dedicated"@),
            tolerant_view("Description"@),
            tolerant_view("DetailedStatus"@),
            tolerant_view("ElementName"@),
            tolerant_view("EnabledDefault"@),
            tolerant_view("EnabledState"@),
            tolerant_view("EnhancedSessionModeState"@),
            tolerant_view("FailedOverReplicationType"@),
            tolerant_view("HealthState"@),
            tolerant_view("HwThreadsPerCoreRealized"@),
            tolerant_view("IdentifyingDescriptions"@),
            tolerant_view("InstallDate"@),
            tolerant_view("InstanceID"@),
            tolerant_view("LastApplicationConsistentReplicationTime"@),
            tolerant_view("LastReplicationTime"@),
            tolerant_view("LastReplicationType"@),
            tolerant_view("LastSuccessfulBackupTime"@),
            tolerant_view("Name"@),
            tolerant_view("NameFormat"@),
            tolerant_view("NumberOfNumaNodes"@),
            tolerant_view("OnTimeInMilliseconds"@),
            tolerant_view("OperatingStatus"@),
            tolerant_view("OperationalStatus"@),
            tolerant_view("OtherDedicatedDescriptions"@),
            tolerant_view("OtherEnabledState"@),
            tolerant_view("OtherIdentifyingInfo"@),
            tolerant_view("PowerManagementCapabilities"@),
            tolerant_view("PrimaryOwnerContact"@),
            tolerant_view("PrimaryOwnerName"@),
            tolerant_view("PrimaryStatus"@),
            tolerant_view("ProcessID"@),
            tolerant_view("ReplicationHealth"@),
            tolerant_view("ReplicationMode"@),
            tolerant_view("ReplicationState"@),
            tolerant_view("RequestedState"@),
            tolerant_view("ResetCapability"@),
            tolerant_view("Roles"@),
            tolerant_view("Status"@),
            tolerant_view("StatusDescriptions"@),
            tolerant_view("TimeOfLastConfigurationChange"@),
            tolerant_view("TimeOfLastStateChange"@),
            tolerant_view("TransitioningToState"@),
        ]
    }

    open spec fn field_texts(&self) -> Seq<Seq<char>> {
        seq![
            self.available_requested_states@,
            self.caption@,
            self.communication_status@,
            self.creation_class_name@,
            self.dedicated@,
            self.description@,
            self.detailed_status@,
            self.element_name@,
            self.enabled_default@,
            self.enabled_state@,
            self.enhanced_session_mode_state@,
            self.failed_over_replication_type@,
            self.health_state@,
            self.hw_threads_per_core_realized@,
            self.identifying_descriptions@,
            self.install_date@,
            self.instance_id@,
            self.last_application_consistent_replication_time@,
            self.last_replication_time@,
            self.last_replication_type@,
            self.last_successful_backup_time@,
            self.name@,
            self.name_format@,
            self.number_of_numa_nodes@,
            self.on_time_in_milliseconds@,
            self.operating_status@,
            self.operational_status@,
            self.other_dedicated_descriptions@,
            self.other_enabled_state@,
            self.other_identifying_info@,
            self.power_management_capabilities@,
            self.primary_owner_contact@,
            self.primary_owner_name@,
            self.primary_status@,
            self.process_id@,
            self.replication_health@,
            self.replication_mode@,
            self.replication_state@,
            self.requested_state@,
            self.reset_capability@,
            self.roles@,
            self.status@,
            self.status_descriptions@,
            self.time_of_last_configuration_change@,
            self.time_of_last_state_change@,
            self.transitioning_to_state@,
        ]
    }

    open spec fn wmi_class() -> Seq<char> {
        "Msvm_ComputerSystem"@
    }

    fn descriptors() -> (r: Vec<Descriptor>) {
        let mut r: Vec<Descriptor> = Vec::new();
        r.push(tolerant("AvailableRequestedStates"));
        r.push(tolerant("Caption"));
        r.push(tolerant("CommunicationStatus"));
        r.push(tolerant("CreationClassName"));
        r.push(tolerant("Dedicated"));
        r.push(tolerant("Description"));
        r.push(tolerant("DetailedStatus"));
        r.push(tolerant("ElementName"));
        r.push(tolerant("EnabledDefault"));
        r.push(tolerant("EnabledState"));
        r.push(tolerant("EnhancedSessionModeState"));
        r.push(tolerant("FailedOverReplicationType"));
        r.push(tolerant("HealthState"));
        r.push(tolerant("HwThreadsPerCoreRealized"));
        r.push(tolerant("IdentifyingDescriptions"));
        r.push(tolerant("InstallDate"));
        r.push(tolerant("InstanceID"));
        r.push(tolerant("LastApplicationConsistentReplicationTime"));
        r.push(tolerant("LastReplicationTime"));
        r.push(tolerant("LastReplicationType"));
        r.push(tolerant("LastSuccessfulBackupTime"));
        r.push(tolerant("Name"));
        r.push(tolerant("NameFormat"));
        r.push(tolerant("NumberOfNumaNodes"));
        r.push(tolerant("OnTimeInMilliseconds"));
        r.push(tolerant("OperatingStatus"));
        r.push(tolerant("OperationalStatus"));
        r.push(tolerant("OtherDedicatedDescriptions"));
        r.push(tolerant("OtherEnabledState"));
        r.push(tolerant("OtherIdentifyingInfo"));
        r.push(tolerant("PowerManagementCapabilities"));
        r.push(tolerant("PrimaryOwnerContact"));
        r.push(tolerant("PrimaryOwnerName"));
        r.push(tolerant("PrimaryStatus"));
        r.push(tolerant("ProcessID"));
        r.push(tolerant("ReplicationHealth"));
        r.push(tolerant("ReplicationMode"));
        r.push(tolerant("ReplicationState"));
        r.push(tolerant("RequestedState"));
        r.push(tolerant("ResetCapability"));
        r.push(tolerant("Roles"));
        r.push(tolerant("Status"));
        r.push(tolerant("StatusDescriptions"));
        r.push(tolerant("TimeOfLastConfigurationChange"));
        r.push(tolerant("TimeOfLastStateChange"));
        r.push(tolerant("TransitioningToState"));
        proof {
            assert(r.deep_view() =~= Self::shape());
        }
        r
    }

    fn from_fields(fields: Vec<Option<String>>) -> (r: HyperVVmStatus) {
        let rec = HyperVVmStatus {
            available_requested_states: field_text(&fields, 0),
            caption: field_text(&fields, 1),
            communication_status: field_text(&fields, 2),
            creation_class_name: field_text(&fields, 3),
            dedicated: field_text(&fields, 4),
            description: field_text(&fields, 5),
            detailed_status: field_text(&fields, 6),
            element_name: field_text(&fields, 7),
            enabled_default: field_text(&fields, 8),
            enabled_state: field_text(&fields, 9),
            enhanced_session_mode_state: field_text(&fields, 10),
            failed_over_replication_type: field_text(&fields, 11),
            health_state: field_text(&fields, 12),
            hw_threads_per_core_realized: field_text(&fields, 13),
            identifying_descriptions: field_text(&fields, 14),
            install_date: field_text(&fields, 15),
            instance_id: field_text(&fields, 16),
            last_application_consistent_replication_time: field_text(&fields, 17),
            last_replication_time: field_text(&fields, 18),
            last_replication_type: field_text(&fields, 19),
            last_successful_backup_time: field_text(&fields, 20),
            name: field_text(&fields, 21),
            name_format: field_text(&fields, 22),
            number_of_numa_nodes: field_text(&fields, 23),
            on_time_in_milliseconds: field_text(&fields, 24),
            operating_status: field_text(&fields, 25),
            operational_status: field_text(&fields, 26),
            other_dedicated_descriptions: field_text(&fields, 27),
            other_enabled_state: field_text(&fields, 28),
            other_identifying_info: field_text(&fields, 29),
            power_management_capabilities: field_text(&fields, 30),
            primary_owner_contact: field_text(&fields, 31),
            primary_owner_name: field_text(&fields, 32),
            primary_status: field_text(&fields, 33),
            process_id: field_text(&fields, 34),
            replication_health: field_text(&fields, 35),
            replication_mode: field_text(&fields, 36),
            replication_state: field_text(&fields, 37),
            requested_state: field_text(&fields, 38),
            reset_capability: field_text(&fields, 39),
            roles: field_text(&fields, 40),
            status: field_text(&fields, 41),
            status_descriptions: field_text(&fields, 42),
            time_of_last_configuration_change: field_text(&fields, 43),
            time_of_last_state_change: field_text(&fields, 44),
            transitioning_to_state: field_text(&fields, 45),
        };
        proof {
            assert(rec.field_texts() =~= fields.deep_view().map_values(
                |f: Option<Seq<char>>| defaulted(f),
            ));
        }
        rec
    }

    fn from_row(row: &mut Row) -> (r: Result<HyperVVmStatus, BuildError>) {
        let descs = Self::descriptors();
        let fields = match build_fields(row, &descs) {
            Ok(f) => f,
            Err(e) => {
                return Err(e);
            },
        };
        proof {
            lemma_marshal_acc_characterized(old(row)@, Self::shape(), 0, Seq::empty());
        }
        Ok(Self::from_fields(fields))
    }

    fn query_one(key: &str) -> (q: String) {
        build_query("Msvm_ComputerSystem", key)
    }
}

/// Builds the one record of kind `T` that the query behind `cursor` matched:
/// advances the cursor exactly once and marshals the first row, or reports
/// that no record was found.  Rows past the first stay with the cursor.
pub fn query_from_cursor<T: WmiRowConstructable>(cursor: &mut Cursor) -> (r: Result<T, BuildError>)
    requires
        old(cursor)@.advances < usize::MAX,
        old(cursor)@.rows.len() > 0 ==> old(cursor)@.rows[0].fetched + T::shape().len()
            <= usize::MAX && old(cursor)@.rows[0].released <= old(cursor)@.rows[0].fetched,
    ensures
        final(cursor)@.advances == old(cursor)@.advances + 1,
        old(cursor)@.rows.len() == 0 ==> final(cursor)@.rows == old(cursor)@.rows && (r matches Err(
            e,
        ) && e@ == ErrorView::RecordNotFound),
        old(cursor)@.rows.len() > 0 ==> final(cursor)@.rows == old(cursor)@.rows.skip(1) && match r {
            Ok(rec) => marshal_fields(old(cursor)@.rows[0], T::shape()) matches Ok(fs)
                && rec.field_texts() == fs.map_values(|f: Option<Seq<char>>| defaulted(f)),
            Err(e) => marshal_fields(old(cursor)@.rows[0], T::shape()) == Err::<
                Seq<Option<Seq<char>>>,
                ErrorView,
            >(e@),
        },
{
    match cursor.next() {
        None => Err(BuildError::RecordNotFound),
        Some(mut row) => T::from_row(&mut row),
    }
}

} // verus!
