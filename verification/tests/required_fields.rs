//! Configs with required fields and with reset flags, written out as the
//! derive writes them, with overrides as they would be read at run time.

use lib_conf::merge::{Staged, apply, apply_or_reset, replace};

// !- A config with a field without default

#[derive(Debug, Clone)]
pub struct TestConfig {
    pub foo: bool,
    pub init_me: bool,
}

impl TestConfig {
    pub(crate) fn new(init_me: bool) -> Self {
        Self { foo: true, init_me: init_me }
    }
    pub fn builder(init_me: bool) -> TestConfigBuilder {
        <TestConfigBuilder>::new(init_me)
    }
    pub fn foo(&self) -> &bool {
        &self.foo
    }
    pub fn init_me(&self) -> &bool {
        &self.init_me
    }
    pub fn merge_with_override(&mut self, override_conf: TestOverrideConfig) {
        let val = override_conf.foo.clone();
        apply_or_reset(&mut self.foo, override_conf.foo_unset, val.map(|val| val), || true);
        let val = override_conf.init_me.clone();
        apply(&mut self.init_me, val.map(|val| val));
    }
}

impl std::ops::Add<TestOverrideConfig> for TestConfig {
    type Output = Self;
    fn add(self, other: TestOverrideConfig) -> Self {
        let mut merged = self;
        merged.merge_with_override(other);
        merged
    }
}

#[derive(Debug, Clone)]
pub struct TestConfigBuilder {
    pub(crate) staged: Staged<TestConfig, TestOverrideConfig>,
}

impl TestConfigBuilder {
    pub fn new(init_me: bool) -> Self {
        let initial_override = None;
        Self { staged: Staged::new(<TestConfig>::new(init_me), initial_override) }
    }
    pub fn foo(mut self, val: bool) -> Self {
        self.staged.inner.foo = val;
        self
    }
    pub fn init_me(mut self, val: bool) -> Self {
        self.staged.inner.init_me = val;
        self
    }
    pub fn with_override(self, override_conf: TestOverrideConfig) -> Self {
        Self { staged: self.staged.with_override(override_conf) }
    }
    pub fn clear_override(self) -> Self {
        Self { staged: self.staged.clear_override() }
    }
    pub fn build(self) -> TestConfig {
        self.staged.build(|inner, override_conf| inner + override_conf)
    }
}

#[derive(Debug, Clone)]
pub struct TestOverrideConfig {
    pub foo: Option<bool>,
    pub foo_unset: bool,
    pub init_me: Option<bool>,
}

#[test]
fn required_fields_main() {
    let override_config = TestOverrideConfig { foo: Some(true), foo_unset: false, init_me: None };

    let config = TestConfig::builder(true)
        .with_override(override_config)
        .foo(false)
        .build();
    assert_eq!(config.foo(), &true);
    assert_eq!(config.init_me(), &true);
}

// !- A config with a field only set at run time

#[derive(Debug, Clone)]
pub struct RuntimeConfig {
    pub runtime_only: String,
    pub foo: u16,
    pub init_me: bool,
}

impl RuntimeConfig {
    pub(crate) fn new(override_conf: RuntimeOverrideConfig, init_me: bool) -> Self {
        Self { runtime_only: override_conf.runtime_only.clone(), foo: 1, init_me: init_me }
    }
    pub fn builder(override_conf: RuntimeOverrideConfig, init_me: bool) -> RuntimeConfigBuilder {
        <RuntimeConfigBuilder>::new(override_conf, init_me)
    }
    pub fn runtime_only(&self) -> &str {
        self.runtime_only.as_str()
    }
    pub fn foo(&self) -> u16 {
        self.foo
    }
    pub fn init_me(&self) -> bool {
        self.init_me
    }
    pub fn merge_with_override(&mut self, override_conf: RuntimeOverrideConfig) {
        let val = override_conf.runtime_only.clone();
        replace(&mut self.runtime_only, val);
        let val = override_conf.foo.clone();
        apply_or_reset(&mut self.foo, override_conf.foo_unset, val.map(|val| val), || 1);
        let val = override_conf.init_me.clone();
        apply(&mut self.init_me, val.map(|val| val));
    }
}

impl std::ops::Add<RuntimeOverrideConfig> for RuntimeConfig {
    type Output = Self;
    fn add(self, other: RuntimeOverrideConfig) -> Self {
        let mut merged = self;
        merged.merge_with_override(other);
        merged
    }
}

#[derive(Debug, Clone)]
pub struct RuntimeConfigBuilder {
    pub(crate) staged: Staged<RuntimeConfig, RuntimeOverrideConfig>,
}

impl RuntimeConfigBuilder {
    pub fn new(override_conf: RuntimeOverrideConfig, init_me: bool) -> Self {
        let initial_override = Some(override_conf.clone());
        Self { staged: Staged::new(<RuntimeConfig>::new(override_conf, init_me), initial_override) }
    }
    pub fn foo(mut self, val: u16) -> Self {
        self.staged.inner.foo = val;
        self
    }
    pub fn init_me(mut self, val: bool) -> Self {
        self.staged.inner.init_me = val;
        self
    }
    pub fn build(self) -> RuntimeConfig {
        self.staged.build(|inner, override_conf| inner + override_conf)
    }
}

#[derive(Debug, Clone)]
pub struct RuntimeOverrideConfig {
    pub runtime_only: String,
    pub foo: Option<u16>,
    pub foo_unset: bool,
    pub init_me: Option<bool>,
}

#[test]
fn required_override_fields_main() {
    let override_config = RuntimeOverrideConfig {
        runtime_only: String::from("hunter2"),
        foo: None,
        foo_unset: false,
        init_me: None,
    };

    let config = RuntimeConfig::builder(override_config, true)
        .foo(5)
        .build();
    assert_eq!(config.runtime_only(), &String::from("hunter2"));
    assert_eq!(config.foo(), 5);
    assert_eq!(config.init_me(), true);
}

// !- A config whose values are reset at run time

#[derive(Debug, Clone)]
pub struct TestSettings {
    pub foo: u16,
    pub bar: u16,
    pub baz: u16,
    pub baz2: u16,
    pub baz3: u16,
    pub baz4: u16,
}

impl TestSettings {
    pub(crate) fn new() -> Self {
        Self { foo: 1, bar: 1, baz: 1, baz2: 1, baz3: 1, baz4: 1 }
    }
    pub fn builder() -> TestSettingsBuilder {
        <TestSettingsBuilder>::new()
    }
    pub fn foo(&self) -> u16 {
        self.foo
    }
    pub fn bar(&self) -> u16 {
        self.bar
    }
    pub fn baz(&self) -> u16 {
        self.baz
    }
    pub fn baz2(&self) -> u16 {
        self.baz2
    }
    pub fn baz3(&self) -> u16 {
        self.baz3
    }
    pub fn baz4(&self) -> u16 {
        self.baz4
    }
    pub fn merge_with_override(&mut self, override_conf: TestOverrideSettings) {
        let val = override_conf.foo.clone();
        apply_or_reset(&mut self.foo, override_conf.foo_unset, val.map(|val| val), || 1);
        let val = override_conf.bar.clone();
        apply_or_reset(&mut self.bar, override_conf.bar_unset, val.map(|val| val), || 1);
        let val = override_conf.baz.clone();
        apply_or_reset(&mut self.baz, override_conf.baz_unset, val.map(|val| val), || 1);
        let val = override_conf.baz2.clone();
        apply_or_reset(&mut self.baz2, override_conf.baz2_unset, val.map(|val| val), || 1);
        let val = override_conf.baz3.clone();
        apply_or_reset(&mut self.baz3, override_conf.baz3_unset, val.map(|val| val), || 1);
        let val = override_conf.baz4.clone();
        apply_or_reset(&mut self.baz4, override_conf.baz4_unset, val.map(|val| val), || 1);
    }
}

impl std::ops::Add<TestOverrideSettings> for TestSettings {
    type Output = Self;
    fn add(self, other: TestOverrideSettings) -> Self {
        let mut merged = self;
        merged.merge_with_override(other);
        merged
    }
}

#[derive(Debug, Clone)]
pub struct TestSettingsBuilder {
    pub(crate) staged: Staged<TestSettings, TestOverrideSettings>,
}

impl TestSettingsBuilder {
    pub fn new() -> Self {
        let initial_override = None;
        Self { staged: Staged::new(<TestSettings>::new(), initial_override) }
    }
    pub fn foo(mut self, val: u16) -> Self {
        self.staged.inner.foo = val;
        self
    }
    pub fn bar(mut self, val: u16) -> Self {
        self.staged.inner.bar = val;
        self
    }
    pub fn baz(mut self, val: u16) -> Self {
        self.staged.inner.baz = val;
        self
    }
    pub fn baz2(mut self, val: u16) -> Self {
        self.staged.inner.baz2 = val;
        self
    }
    pub fn baz3(mut self, val: u16) -> Self {
        self.staged.inner.baz3 = val;
        self
    }
    pub fn baz4(mut self, val: u16) -> Self {
        self.staged.inner.baz4 = val;
        self
    }
    pub fn with_override(self, override_conf: TestOverrideSettings) -> Self {
        Self { staged: self.staged.with_override(override_conf) }
    }
    pub fn build(self) -> TestSettings {
        self.staged.build(|inner, override_conf| inner + override_conf)
    }
}

#[derive(Debug, Clone, Default)]
pub struct TestOverrideSettings {
    pub foo: Option<u16>,
    pub foo_unset: bool,
    pub bar: Option<u16>,
    pub bar_unset: bool,
    pub baz: Option<u16>,
    pub baz_unset: bool,
    pub baz2: Option<u16>,
    pub baz2_unset: bool,
    pub baz3: Option<u16>,
    pub baz3_unset: bool,
    pub baz4: Option<u16>,
    pub baz4_unset: bool,
}

#[test]
fn aliases_main() {
    // each reset flag set through one of its names at run time
    let override_settings = TestOverrideSettings {
        bar: Some(2000),
        baz_unset: true,
        baz2_unset: true,
        baz3_unset: true,
        baz4_unset: true,
        ..Default::default()
    };
    println!("override settings: {override_settings:#?}");

    let settings = TestSettings::builder()
        .with_override(override_settings)
        .foo(5)
        .bar(10)
        .baz(10)
        .baz2(10)
        .baz3(10)
        .baz4(10)
        .build();
    println!("settings: {settings:#?}");

    assert_eq!(settings.foo(), 5);
    assert_eq!(settings.bar(), 2000);
    assert_eq!(settings.baz(), 1);
    assert_eq!(settings.baz2(), 1);
    assert_eq!(settings.baz3(), 1);
    assert_eq!(settings.baz4(), 1);
}
