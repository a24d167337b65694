use crate::json::{
    bool_value, insert_member, json_bool, json_object, new_object, object_value, JsonMembers,
};
use vstd::prelude::*;
use vstd::string::StringExecFns;

verus! {

/// The switches of the cluster that can be changed while it runs.
#[derive(Clone, Copy, Debug, PartialEq, Eq, Structural)]
pub struct ClusterDynamicConfig {
    pub slow_subscribe: bool,
    pub offline_message: bool,
    pub flapping_detect: bool,
    pub system_alarm: bool,
}

/// The cluster features that can be switched by name.
#[derive(Clone, Copy, Debug, PartialEq, Eq, Structural)]
pub enum FeatureType {
    SlowSubscribe,
    OfflineMessage,
}

/// A switch of the configuration that is kept in cluster metadata: a feature that
/// is switched by name, or flapping detection.
#[derive(Clone, Copy, Debug, PartialEq, Eq, Structural)]
pub enum ConfigSwitch {
    Feature(FeatureType),
    FlappingDetect,
}

/// The feature that `name` names, if it names one.
pub open spec fn feature_named(name: Seq<char>) -> Option<FeatureType> {
    if name == "SlowSubscribe"@ {
        Some(FeatureType::SlowSubscribe)
    } else if name == "OfflineMessage"@ {
        Some(FeatureType::OfflineMessage)
    } else {
        None
    }
}

/// `config` with one feature switched to `enable`.
pub open spec fn with_feature(
    config: ClusterDynamicConfig,
    feature: FeatureType,
    enable: bool,
) -> ClusterDynamicConfig {
    match feature {
        FeatureType::SlowSubscribe => ClusterDynamicConfig { slow_subscribe: enable, ..config },
        FeatureType::OfflineMessage => ClusterDynamicConfig { offline_message: enable, ..config },
    }
}

/// `config` with flapping detection switched to `enable`.
pub open spec fn with_flapping_detect(
    config: ClusterDynamicConfig,
    enable: bool,
) -> ClusterDynamicConfig {
    ClusterDynamicConfig { flapping_detect: enable, ..config }
}

/// `config` with one switch set to `enable`, and every other switch as it was.
pub open spec fn switched_by(
    config: ClusterDynamicConfig,
    switch: ConfigSwitch,
    enable: bool,
) -> ClusterDynamicConfig {
    match switch {
        ConfigSwitch::Feature(feature) => with_feature(config, feature, enable),
        ConfigSwitch::FlappingDetect => with_flapping_detect(config, enable),
    }
}

/// The JSON value of a configuration: an object with one boolean member for each
/// switch, under the switch's name.
pub open spec fn config_json(config: ClusterDynamicConfig) -> serde_json::Value {
    json_object(
        JsonMembers::empty().insert(
            "slow_subscribe"@,
            json_bool(config.slow_subscribe),
        ).insert("offline_message"@, json_bool(config.offline_message)).insert(
            "flapping_detect"@,
            json_bool(config.flapping_detect),
        ).insert("system_alarm"@, json_bool(config.system_alarm)),
    )
}

impl FeatureType {
    pub fn parse(name: &String) -> (feature: Option<FeatureType>)
        ensures
            feature == feature_named(name@),
    {
        if *name == String::from_str("SlowSubscribe") {
            Some(FeatureType::SlowSubscribe)
        } else if *name == String::from_str("OfflineMessage") {
            Some(FeatureType::OfflineMessage)
        } else {
            None
        }
    }
}

/// The configuration in which every switch is off.
pub open spec fn all_off() -> ClusterDynamicConfig {
    ClusterDynamicConfig {
        slow_subscribe: false,
        offline_message: false,
        flapping_detect: false,
        system_alarm: false,
    }
}

impl ClusterDynamicConfig {
    /// Every switch off.
    pub fn new() -> (config: Self)
        ensures
            config == all_off(),
    {
        ClusterDynamicConfig {
            slow_subscribe: false,
            offline_message: false,
            flapping_detect: false,
            system_alarm: false,
        }
    }

    pub fn set_feature(&self, feature: FeatureType, enable: bool) -> (config: Self)
        ensures
            config == with_feature(*self, feature, enable),
    {
        match feature {
            FeatureType::SlowSubscribe => ClusterDynamicConfig {
                slow_subscribe: enable,
                offline_message: self.offline_message,
                flapping_detect: self.flapping_detect,
                system_alarm: self.system_alarm,
            },
            FeatureType::OfflineMessage => ClusterDynamicConfig {
                slow_subscribe: self.slow_subscribe,
                offline_message: enable,
                flapping_detect: self.flapping_detect,
                system_alarm: self.system_alarm,
            },
        }
    }

    /// The JSON value of the configuration.
    pub fn to_json(&self) -> (value: serde_json::Value)
        ensures
            value == config_json(*self),
    {
        let mut object = new_object();
        insert_member(
            &mut object,
            String::from_str("slow_subscribe"),
            bool_value(self.slow_subscribe),
        );
        insert_member(
            &mut object,
            String::from_str("offline_message"),
            bool_value(self.offline_message),
        );
        insert_member(
            &mut object,
            String::from_str("flapping_detect"),
            bool_value(self.flapping_detect),
        );
        insert_member(&mut object, String::from_str("system_alarm"), bool_value(self.system_alarm));
        object_value(object)
    }

    /// The configuration with one switch set to `enable`.
    pub fn switch(&self, switch: ConfigSwitch, enable: bool) -> (config: Self)
        ensures
            config == switched_by(*self, switch, enable),
    {
        match switch {
            ConfigSwitch::Feature(feature) => self.set_feature(feature, enable),
            ConfigSwitch::FlappingDetect => self.set_flapping_detect(enable),
        }
    }

    pub fn set_flapping_detect(&self, enable: bool) -> (config: Self)
        ensures
            config == with_flapping_detect(*self, enable),
    {
        ClusterDynamicConfig {
            slow_subscribe: self.slow_subscribe,
            offline_message: self.offline_message,
            flapping_detect: enable,
            system_alarm: self.system_alarm,
        }
    }
}

} // verus!
