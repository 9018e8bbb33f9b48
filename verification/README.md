# proto_awscli

A proto plugin for the AWS CLI, with its decisions written in Verus.

- `src/` is the verified library: Windows path formatting (`paths`), text
  helpers (`text`), host platforms and the supported-target check
  (`platform`), release downloads (`download`), executable locations and
  uninstall (`executables`), the native install as a step function from stage
  and event to next stage and action (`install`), release-tag filtering (`versions`), and the version lists, version
  requests and tool registration built with proto's version specifications
  (`version_specs`).
- `app/` is the plugin itself: it reads proto's inputs, performs downloads
  and commands on the host, drives the install steps, and converts the
  library's answers into proto's output shapes.
- `tests/` exercises the library on concrete inputs.
