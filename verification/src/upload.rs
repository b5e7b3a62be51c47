//! How an object is uploaded: in one request or in parts, in parts of what
//! size and by how many workers.

use aws_types::SdkConfig;
use vstd::prelude::*;

verus! {

#[verifier::external_type_specification]
#[verifier::external_body]
pub struct ExSdkConfig(SdkConfig);

/// The number of bytes in a mebibyte.
pub const MEBIBYTE: u64 = 1024 * 1024;

/// Minimum upload part size in bytes.
pub const MIN_PART_SIZE_BYTES: u64 = 5 * MEBIBYTE;

/// Maximum number of parts that a single multipart upload supports.
pub const MAX_PARTS: u64 = 10_000;

/// The number of workers where the caller sets none.
pub const DEFAULT_CONCURRENCY: usize = 8;

/// The size of the parts of an upload, and with it the size from which an
/// object is uploaded in parts.
#[derive(Debug, Clone, Copy, PartialEq, Eq, Structural)]
pub enum TargetPartSize {
    /// Left to the uploader.
    Auto,
    /// This many bytes.
    Explicit(u64),
}

/// How many requests may be in flight at once.
#[derive(Debug, Clone, Copy, PartialEq, Eq, Structural)]
pub enum ConcurrencySetting {
    /// Left to the uploader.
    Auto,
    /// This many.
    Explicit(usize),
}

/// `SdkConfig::clone`: a copy of a configuration. Nothing is claimed of it.
pub assume_specification[ <SdkConfig as Clone>::clone ](config: &SdkConfig) -> (copy: SdkConfig)
;

/// `SdkConfig::builder().build()`: a configuration in which nothing is set.
#[verifier::external_body]
fn empty_sdk_config() -> SdkConfig {
    SdkConfig::builder().build()
}

/// The larger of two sizes.
pub open spec fn larger(a: u64, b: u64) -> u64 {
    if a >= b {
        a
    } else {
        b
    }
}

/// A part size as the builder keeps it: an explicit size below the minimum
/// is raised to the minimum.
pub open spec fn at_least_minimum(size: TargetPartSize) -> TargetPartSize {
    match size {
        TargetPartSize::Explicit(part_size) => TargetPartSize::Explicit(
            larger(part_size, MIN_PART_SIZE_BYTES),
        ),
        TargetPartSize::Auto => TargetPartSize::Auto,
    }
}

fn max(a: u64, b: u64) -> (m: u64)
    ensures
        m == larger(a, b),
{
    if a >= b {
        a
    } else {
        b
    }
}

/// Fluent style builder for [`Uploader`].
#[derive(Debug, Clone)]
pub struct Builder {
    multipart_threshold_part_size: TargetPartSize,
    concurrency: ConcurrencySetting,
    sdk_config: Option<SdkConfig>,
}

impl Builder {
    /// The part size that was set.
    pub closed spec fn part_size(&self) -> TargetPartSize {
        self.multipart_threshold_part_size
    }

    /// The concurrency that was set.
    pub closed spec fn workers(&self) -> ConcurrencySetting {
        self.concurrency
    }

    /// The client configuration that was set.
    pub closed spec fn client_config(&self) -> Option<SdkConfig> {
        self.sdk_config
    }

    fn new() -> (builder: Self)
        ensures
            builder.part_size() == TargetPartSize::Auto,
            builder.workers() == ConcurrencySetting::Auto,
            builder.client_config() is None,
    {
        Self {
            multipart_threshold_part_size: TargetPartSize::Auto,
            concurrency: ConcurrencySetting::Auto,
            sdk_config: None,
        }
    }

    /// Minimum object size that should trigger a multipart upload.
    ///
    /// The minimum part size is 5 MiB, any part size less than that will be rounded up.
    /// Default is [`TargetPartSize::Auto`].
    pub fn multipart_threshold_part_size(
        self,
        multipart_threshold_part_size: TargetPartSize,
    ) -> (builder: Self)
        ensures
            builder.part_size() == at_least_minimum(multipart_threshold_part_size),
            builder.workers() == self.workers(),
            builder.client_config() == self.client_config(),
    {
        let threshold = match multipart_threshold_part_size {
            TargetPartSize::Explicit(part_size) => TargetPartSize::Explicit(
                max(part_size, MIN_PART_SIZE_BYTES),
            ),
            tps => tps,
        };
        let mut builder = self;
        builder.multipart_threshold_part_size = threshold;
        builder
    }

    /// Set the configuration used by the S3 client.
    pub fn sdk_config(self, config: SdkConfig) -> (builder: Self)
        ensures
            builder.client_config() == Some(config),
            builder.part_size() == self.part_size(),
            builder.workers() == self.workers(),
    {
        let mut builder = self;
        builder.sdk_config = Some(config);
        builder
    }

    /// Set the concurrency level this component is allowed to use.
    ///
    /// This sets the maximum number of concurrent in-flight requests.
    /// Default is [`ConcurrencySetting::Auto`].
    pub fn concurrency(self, concurrency: ConcurrencySetting) -> (builder: Self)
        ensures
            builder.workers() == concurrency,
            builder.part_size() == self.part_size(),
            builder.client_config() == self.client_config(),
    {
        let mut builder = self;
        builder.concurrency = concurrency;
        builder
    }

    /// Consumes the builder and constructs an [`Uploader`].
    pub fn build(self) -> (uploader: Uploader)
        ensures
            uploader.part_size() == self.part_size(),
            uploader.workers() == self.workers(),
            self.client_config() matches Some(config) ==> uploader.client_config() == config,
    {
        let sdk_config = match self.sdk_config {
            Some(config) => config,
            None => empty_sdk_config(),
        };
        Uploader {
            multipart_threshold_part_size: self.multipart_threshold_part_size,
            concurrency: self.concurrency,
            sdk_config,
        }
    }
}

/// How an object is sent.
#[derive(Debug, Clone, Copy, PartialEq, Eq, Structural)]
pub enum UploadPlan {
    /// In a single request.
    SinglePut,
    /// In parts.
    Multipart(MultipartPlan),
}

/// How an object is sent in parts.
#[derive(Debug, Clone, Copy, PartialEq, Eq, Structural)]
pub struct MultipartPlan {
    /// The size of every part but the last, in bytes.
    pub part_size: u64,
    /// The number of workers that send parts.
    pub workers: usize,
}

/// Why an upload cannot be planned.
#[derive(Debug, Clone, Copy, PartialEq, Eq, Structural)]
pub enum UploadError {
    /// An upload in parts needs to know how large the object can be at most.
    UpperBoundSizeHintRequired,
}

/// Upload an object in the most efficient way possible by splitting the request into
/// concurrent requests (e.g. using multi-part uploads).
#[derive(Debug, Clone)]
pub struct Uploader {
    multipart_threshold_part_size: TargetPartSize,
    concurrency: ConcurrencySetting,
    sdk_config: SdkConfig,
}

impl Uploader {
    /// The part size that was set.
    pub closed spec fn part_size(&self) -> TargetPartSize {
        self.multipart_threshold_part_size
    }

    /// The concurrency that was set.
    pub closed spec fn workers(&self) -> ConcurrencySetting {
        self.concurrency
    }

    /// The configuration of the client.
    pub closed spec fn client_config(&self) -> SdkConfig {
        self.sdk_config
    }

    /// The smallest size in bytes from which an object is uploaded in parts.
    pub open spec fn threshold(&self) -> u64 {
        match self.part_size() {
            TargetPartSize::Auto => (8 * MEBIBYTE) as u64,
            TargetPartSize::Explicit(explicit) => explicit,
        }
    }

    /// The number of workers that an upload in parts uses.
    pub open spec fn worker_count(&self) -> usize {
        match self.workers() {
            ConcurrencySetting::Auto => DEFAULT_CONCURRENCY,
            ConcurrencySetting::Explicit(explicit) => explicit,
        }
    }

    /// How an object of at most `upper_bound` bytes is sent in parts: in
    /// parts of the threshold size, or larger where the object would else
    /// have more parts than an upload can have.
    pub open spec fn multipart_plan(&self, upper_bound: u64) -> MultipartPlan {
        MultipartPlan {
            part_size: larger(self.threshold(), (upper_bound / MAX_PARTS) as u64),
            workers: self.worker_count(),
        }
    }

    /// Create a new [`Builder`].
    pub fn builder() -> (builder: Builder)
        ensures
            builder.part_size() == TargetPartSize::Auto,
            builder.workers() == ConcurrencySetting::Auto,
            builder.client_config() is None,
    {
        Builder::new()
    }

    /// The configuration from which the client is made.
    pub fn sdk_config(&self) -> (config: &SdkConfig)
        ensures
            *config == self.client_config(),
    {
        &self.sdk_config
    }

    /// Decides how a single object is uploaded, from the bounds on its
    /// size: an object that may be smaller than the threshold goes in a
    /// single request, every other in parts.
    pub fn upload(&self, size_lower_bound: u64, size_upper_bound: Option<u64>) -> (plan: Result<
        UploadPlan,
        UploadError,
    >)
        ensures
            plan == if size_lower_bound < self.threshold() {
                Ok::<UploadPlan, UploadError>(UploadPlan::SinglePut)
            } else {
                match size_upper_bound {
                    Some(upper_bound) => Ok::<UploadPlan, UploadError>(
                        UploadPlan::Multipart(self.multipart_plan(upper_bound)),
                    ),
                    None => Err::<UploadPlan, UploadError>(
                        UploadError::UpperBoundSizeHintRequired,
                    ),
                }
            },
    {
        let min_mpu_threshold = self.mpu_threshold_bytes();
        if size_lower_bound < min_mpu_threshold {
            Ok(UploadPlan::SinglePut)
        } else {
            match self.try_start_mpu_upload(size_upper_bound) {
                Ok(plan) => Ok(UploadPlan::Multipart(plan)),
                Err(error) => Err(error),
            }
        }
    }

    /// Plans the upload of an object in parts. An upload has at most
    /// `MAX_PARTS` parts, so the largest size that the object can have must
    /// be known.
    pub fn try_start_mpu_upload(&self, size_upper_bound: Option<u64>) -> (plan: Result<
        MultipartPlan,
        UploadError,
    >)
        ensures
            plan == match size_upper_bound {
                Some(upper_bound) => Ok::<MultipartPlan, UploadError>(
                    self.multipart_plan(upper_bound),
                ),
                None => Err::<MultipartPlan, UploadError>(UploadError::UpperBoundSizeHintRequired),
            },
    {
        let upper_bound = match size_upper_bound {
            Some(upper_bound) => upper_bound,
            None => {
                return Err(UploadError::UpperBoundSizeHintRequired);
            },
        };
        let part_size = max(self.mpu_threshold_bytes(), upper_bound / MAX_PARTS);
        Ok(MultipartPlan { part_size, workers: self.num_workers() })
    }

    /// Get the concrete number of workers to use based on the concurrency setting.
    pub fn num_workers(&self) -> (workers: usize)
        ensures
            workers == self.worker_count(),
    {
        match self.concurrency {
            ConcurrencySetting::Auto => DEFAULT_CONCURRENCY,
            ConcurrencySetting::Explicit(explicit) => explicit,
        }
    }

    /// Get the concrete minimum upload size in bytes to use to determine whether multipart uploads
    /// are enabled for a given request.
    pub fn mpu_threshold_bytes(&self) -> (bytes: u64)
        ensures
            bytes == self.threshold(),
    {
        match self.multipart_threshold_part_size {
            TargetPartSize::Auto => 8 * MEBIBYTE,
            TargetPartSize::Explicit(explicit) => explicit,
        }
    }
}

} // verus!
